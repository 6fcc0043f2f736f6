//! Editor-side decisions: which input looks like typing, the IME event
//! filter, completion triggers, the word under the cursor, relative commit
//! times, the crate name of a manifest, scene-file discovery, the Godot
//! scene panel's cache, and small state types.
use crate::sorting::{sort_strings, sorted_strs, str_views};
use crate::text::{
    after_last, chars_of, contains_str, decimal, ends_with, ends_with_str, eq_str, is_alnum,
    is_alphanumeric, last_index_of, lines, lines_of, lower_seq, owned, push_str, push_u64,
    rfind_char, seq_eq, slice_of, starts_with, starts_with_str, string_of, trim, trim_chars,
    unicode_alphanumeric, views,
};
use vstd::prelude::*;

verus! {

// ───────────────────────── input events ─────────────────────────

/// The input events of one frame that the typing checks and the IME filter
/// look at.
#[derive(Debug, Clone, PartialEq)]
pub enum InputEvent {
    /// Text typed (`Event::Text`).
    Text(String),
    /// The IME was enabled.
    ImeEnabled,
    /// IME composition text (`ImeEvent::Preedit`).
    ImePreedit(String),
    /// IME composition committed (`ImeEvent::Commit`).
    ImeCommit(String),
    /// The IME was disabled.
    ImeDisabled,
    /// A key event; `backspace` tells whether the key is Backspace.
    Key { backspace: bool, pressed: bool },
    /// Any other event.
    Other,
}

/// Whether one event is typing: text, an IME commit, or non-empty IME
/// composition text.
pub open spec fn is_typing(e: InputEvent) -> bool {
    match e {
        InputEvent::Text(_) => true,
        InputEvent::ImeCommit(_) => true,
        InputEvent::ImePreedit(s) => s@.len() > 0,
        _ => false,
    }
}

/// Whether the frame's events look like the user typed something the
/// completion popup should react to.
pub fn events_look_like_typing(events: &[InputEvent]) -> (r: bool)
    ensures
        r == exists|i: int| 0 <= i < events@.len() && is_typing(#[trigger] events@[i]),
{
    let mut i: usize = 0;
    while i < events.len()
        invariant
            i <= events@.len(),
            forall|k: int| 0 <= k < i ==> !is_typing(#[trigger] events@[k]),
        decreases events@.len() - i,
    {
        let t = match &events[i] {
            InputEvent::Text(_) => true,
            InputEvent::ImeCommit(_) => true,
            InputEvent::ImePreedit(s) => !s.as_str().is_empty(),
            _ => false,
        };
        if t {
            assert(is_typing(events@[i as int]));
            return true;
        }
        i = i + 1;
    }
    false
}

/// Non-empty IME composition text.
pub open spec fn is_live_preedit(e: InputEvent) -> bool {
    e matches InputEvent::ImePreedit(s) && s@.len() > 0
}

/// A Backspace press.
pub open spec fn is_backspace_press(e: InputEvent) -> bool {
    e matches InputEvent::Key { backspace, pressed } && backspace && pressed
}

/// Whether the IME filter keeps an event, given whether the frame holds live
/// composition text and a Backspace press: IME-enabled events are dropped,
/// composition text is dropped in a frame with a Backspace press, and text
/// is dropped in a frame with live composition text.
pub open spec fn ime_keeps(e: InputEvent, has_preedit: bool, has_backspace: bool) -> bool {
    match e {
        InputEvent::ImeEnabled => false,
        InputEvent::ImePreedit(_) => !has_backspace,
        InputEvent::Text(_) => !has_preedit,
        _ => true,
    }
}

/// The events the IME filter keeps, in order.
pub open spec fn ime_filtered(events: Seq<InputEvent>) -> Seq<InputEvent> {
    let has_preedit = exists|i: int| 0 <= i < events.len() && is_live_preedit(#[trigger] events[i]);
    let has_backspace = exists|i: int|
        0 <= i < events.len() && is_backspace_press(#[trigger] events[i]);
    events.filter(|e: InputEvent| ime_keeps(e, has_preedit, has_backspace))
}

fn clone_event(e: &InputEvent) -> (r: InputEvent)
    ensures
        r == *e,
{
    match e {
        InputEvent::Text(s) => InputEvent::Text(s.clone()),
        InputEvent::ImeEnabled => InputEvent::ImeEnabled,
        InputEvent::ImePreedit(s) => InputEvent::ImePreedit(s.clone()),
        InputEvent::ImeCommit(s) => InputEvent::ImeCommit(s.clone()),
        InputEvent::ImeDisabled => InputEvent::ImeDisabled,
        InputEvent::Key { backspace, pressed } => InputEvent::Key {
            backspace: *backspace,
            pressed: *pressed,
        },
        InputEvent::Other => InputEvent::Other,
    }
}

/// The IME event filter applied to each frame before the editor sees it.
pub fn filter_ime_events(events: Vec<InputEvent>) -> (r: Vec<InputEvent>)
    ensures
        r@ == ime_filtered(events@),
{
    let mut has_preedit = false;
    let mut has_backspace = false;
    let mut i: usize = 0;
    while i < events.len()
        invariant
            i <= events@.len(),
            has_preedit == exists|k: int| 0 <= k < i && is_live_preedit(#[trigger] events@[k]),
            has_backspace == exists|k: int| 0 <= k < i && is_backspace_press(#[trigger] events@[k]),
        decreases events@.len() - i,
    {
        match &events[i] {
            InputEvent::ImePreedit(s) => {
                if !s.as_str().is_empty() {
                    assert(is_live_preedit(events@[i as int]));
                    has_preedit = true;
                }
            },
            InputEvent::Key { backspace, pressed } => {
                if *backspace && *pressed {
                    assert(is_backspace_press(events@[i as int]));
                    has_backspace = true;
                }
            },
            _ => {},
        }
        i = i + 1;
    }
    let ghost keep = |e: InputEvent| ime_keeps(e, has_preedit, has_backspace);
    let mut out: Vec<InputEvent> = Vec::new();
    let mut j: usize = 0;
    assert(events@.take(0) =~= Seq::<InputEvent>::empty());
    while j < events.len()
        invariant
            j <= events@.len(),
            keep == (|e: InputEvent| ime_keeps(e, has_preedit, has_backspace)),
            has_preedit == exists|k: int|
                0 <= k < events@.len() && is_live_preedit(#[trigger] events@[k]),
            has_backspace == exists|k: int|
                0 <= k < events@.len() && is_backspace_press(#[trigger] events@[k]),
            out@ == events@.take(j as int).filter(keep),
        decreases events@.len() - j,
    {
        proof {
            reveal_with_fuel(Seq::filter, 1);
            assert(events@.take(j + 1).drop_last() =~= events@.take(j as int));
        }
        let e = &events[j];
        let kept = match e {
            InputEvent::ImeEnabled => false,
            InputEvent::ImePreedit(_) => !has_backspace,
            InputEvent::Text(_) => !has_preedit,
            _ => true,
        };
        if kept {
            out.push(clone_event(e));
        }
        j = j + 1;
    }
    assert(events@.take(events@.len() as int) =~= events@);
    out
}

/// A sequence all of whose elements pass a filter is its own filtering.
proof fn lemma_filter_keeps_all(t: Seq<InputEvent>, p: spec_fn(InputEvent) -> bool)
    requires
        forall|i: int| 0 <= i < t.len() ==> p(#[trigger] t[i]),
    ensures
        t.filter(p) == t,
    decreases t.len(),
{
    reveal(Seq::filter);
    if t.len() > 0 {
        lemma_filter_keeps_all(t.drop_last(), p);
        assert(t.drop_last().push(t.last()) =~= t);
    }
}

/// What the IME filter lets through: no IME-enabled event; every key event
/// (so a Backspace always reaches the editor); never composition text
/// together with a Backspace press; never typed text together with live
/// composition text. Everything it lets through was in the frame.
pub proof fn lemma_ime_filter_guarantees(events: Seq<InputEvent>)
    ensures
        forall|i: int|
            0 <= i < ime_filtered(events).len() ==> !(#[trigger] ime_filtered(events)[i] is ImeEnabled),
        forall|i: int|
            0 <= i < events.len() && (#[trigger] events[i] is Key) ==> ime_filtered(events).contains(
                events[i],
            ),
        forall|i: int, j: int|
            0 <= i < ime_filtered(events).len() && 0 <= j < ime_filtered(events).len()
                && is_backspace_press(#[trigger] ime_filtered(events)[i]) ==> !(#[trigger] ime_filtered(
                events,
            )[j] is ImePreedit),
        forall|i: int, j: int|
            0 <= i < ime_filtered(events).len() && 0 <= j < ime_filtered(events).len()
                && is_live_preedit(#[trigger] ime_filtered(events)[i]) ==> !(#[trigger] ime_filtered(
                events,
            )[j] is Text),
        forall|i: int|
            0 <= i < ime_filtered(events).len() ==> events.contains(#[trigger] ime_filtered(events)[i]),
{
    broadcast use vstd::seq_lib::group_filter_ensures;
    broadcast use vstd::seq::Seq::lemma_filter_contains_rev;
    let hp = exists|k: int| 0 <= k < events.len() && is_live_preedit(#[trigger] events[k]);
    let hb = exists|k: int| 0 <= k < events.len() && is_backspace_press(#[trigger] events[k]);
    let keep = |e: InputEvent| ime_keeps(e, hp, hb);
    let f = ime_filtered(events);
    assert(f == events.filter(keep));
    assert forall|i: int| 0 <= i < f.len() implies events.contains(#[trigger] f[i]) by {
        assert(f.contains(f[i]));
    }
    assert forall|i: int, j: int|
        0 <= i < f.len() && 0 <= j < f.len() && is_backspace_press(#[trigger] f[i]) implies !(
        #[trigger] f[j] is ImePreedit) by {
        assert(f.contains(f[i]));
        let k = choose|k: int| 0 <= k < events.len() && events[k] == f[i];
        assert(is_backspace_press(events[k]));
        assert(keep(f[j]));
    }
    assert forall|i: int, j: int|
        0 <= i < f.len() && 0 <= j < f.len() && is_live_preedit(#[trigger] f[i]) implies !(
        #[trigger] f[j] is Text) by {
        assert(f.contains(f[i]));
        let k = choose|k: int| 0 <= k < events.len() && events[k] == f[i];
        assert(is_live_preedit(events[k]));
        assert(keep(f[j]));
    }
    assert forall|i: int| 0 <= i < events.len() && (#[trigger] events[i] is Key) implies f.contains(
        events[i],
    ) by {
        assert(keep(events[i]));
    }
}

/// Filtering a frame a second time changes nothing.
pub proof fn lemma_ime_filter_idempotent(events: Seq<InputEvent>)
    ensures
        ime_filtered(ime_filtered(events)) == ime_filtered(events),
{
    broadcast use vstd::seq_lib::group_filter_ensures;
    broadcast use vstd::seq::Seq::lemma_filter_contains_rev;
    let hp = exists|k: int| 0 <= k < events.len() && is_live_preedit(#[trigger] events[k]);
    let hb = exists|k: int| 0 <= k < events.len() && is_backspace_press(#[trigger] events[k]);
    let f = ime_filtered(events);
    assert(f == events.filter(|e: InputEvent| ime_keeps(e, hp, hb)));
    let hp2 = exists|k: int| 0 <= k < f.len() && is_live_preedit(#[trigger] f[k]);
    let hb2 = exists|k: int| 0 <= k < f.len() && is_backspace_press(#[trigger] f[k]);
    lemma_ime_filter_guarantees(events);
    if hp2 {
        let k = choose|k: int| 0 <= k < f.len() && is_live_preedit(#[trigger] f[k]);
        assert(events.contains(f[k]));
    }
    if hb {
        let k = choose|k: int| 0 <= k < events.len() && is_backspace_press(#[trigger] events[k]);
        assert(events[k] is Key);
        assert(f.contains(events[k]));
        let j = choose|j: int| 0 <= j < f.len() && f[j] == events[k];
        assert(is_backspace_press(f[j]));
    }
    if hb2 {
        let k = choose|k: int| 0 <= k < f.len() && is_backspace_press(#[trigger] f[k]);
        assert(events.contains(f[k]));
    }
    assert(hb2 == hb);
    assert(hp2 ==> hp);
    let p2 = |e: InputEvent| ime_keeps(e, hp2, hb2);
    assert forall|i: int| 0 <= i < f.len() implies p2(#[trigger] f[i]) by {
        assert(ime_keeps(f[i], hp, hb));
    }
    lemma_filter_keeps_all(f, p2);
}

// ───────────────────────── completion ─────────────────────────

/// Word characters and the completion operators `_ . : <`.
pub open spec fn triggers_completion(c: char) -> bool {
    unicode_alphanumeric(c) || c == '_' || c == '.' || c == ':' || c == '<'
}

/// Whether inserting `c` should ask for fresh completions.
pub fn char_triggers_completion(c: char) -> (r: bool)
    ensures
        r == triggers_completion(c),
{
    is_alphanumeric(c) || c == '_' || c == '.' || c == ':' || c == '<'
}

/// A character of an identifier: Unicode alphanumeric or `_`.
pub open spec fn word_char(c: char) -> bool {
    unicode_alphanumeric(c) || c == '_'
}

/// Where the word ending at `i` starts.
pub open spec fn word_start(s: Seq<char>, i: int) -> int
    decreases i,
{
    if i > 0 && i <= s.len() && word_char(s[i - 1]) {
        word_start(s, i - 1)
    } else {
        i
    }
}

/// Where the word starting at `i` ends.
pub open spec fn word_end(s: Seq<char>, i: int) -> int
    decreases s.len() - i,
{
    if 0 <= i < s.len() && word_char(s[i]) {
        word_end(s, i + 1)
    } else {
        i
    }
}

/// The identifier around character position `pos` (empty when `pos` is
/// past the last character).
pub open spec fn word_at(s: Seq<char>, pos: int) -> Seq<char> {
    if pos < 0 || pos >= s.len() {
        Seq::empty()
    } else {
        s.subrange(word_start(s, pos), word_end(s, pos))
    }
}

proof fn lemma_word_start(s: Seq<char>, i: int)
    requires
        0 <= i <= s.len(),
    ensures
        0 <= word_start(s, i) <= i,
    decreases i,
{
    if i > 0 && word_char(s[i - 1]) {
        lemma_word_start(s, i - 1);
    }
}

proof fn lemma_word_end(s: Seq<char>, i: int)
    requires
        0 <= i <= s.len(),
    ensures
        i <= word_end(s, i) <= s.len(),
    decreases s.len() - i,
{
    if i < s.len() && word_char(s[i]) {
        lemma_word_end(s, i + 1);
    }
}

/// The identifier around character position `pos` of `text`.
pub fn extract_word_at_position(text: &str, pos: usize) -> (r: String)
    ensures
        r@ == word_at(text@, pos as int),
{
    let chars = chars_of(text);
    if pos >= chars.len() {
        return String::new();
    }
    let mut start = pos;
    while start > 0 && (is_alphanumeric(chars[start - 1]) || chars[start - 1] == '_')
        invariant
            start <= pos < chars@.len(),
            word_start(chars@, pos as int) == word_start(chars@, start as int),
        decreases start,
    {
        start = start - 1;
    }
    let mut end = pos;
    while end < chars.len() && (is_alphanumeric(chars[end]) || chars[end] == '_')
        invariant
            pos <= end <= chars@.len(),
            word_end(chars@, pos as int) == word_end(chars@, end as int),
        decreases chars@.len() - end,
    {
        end = end + 1;
    }
    let w = slice_of(chars.as_slice(), start, end);
    string_of(w.as_slice())
}

// ───────────────────────── git timestamps ─────────────────────────

/// "N seconds ago" below a minute, "N minutes ago" below an hour, "N hours
/// ago" below a day, else "N days ago"; a time in the future is shown as
/// "Timestamp: T".
pub open spec fn timestamp_text(timestamp: u64, now: u64) -> Seq<char> {
    if now < timestamp {
        "Timestamp: "@ + decimal(timestamp as nat)
    } else {
        let secs = (now - timestamp) as nat;
        if secs < 60 {
            decimal(secs) + " seconds ago"@
        } else if secs < 3600 {
            decimal(secs / 60) + " minutes ago"@
        } else if secs < 86400 {
            decimal(secs / 3600) + " hours ago"@
        } else {
            decimal(secs / 86400) + " days ago"@
        }
    }
}

/// How long ago a commit was made, `now` being the current Unix time in
/// whole seconds.
pub fn format_timestamp(timestamp: u64, now: u64) -> (r: String)
    ensures
        r@ == timestamp_text(timestamp, now),
{
    let mut s = String::new();
    if now < timestamp {
        push_str(&mut s, "Timestamp: ");
        push_u64(&mut s, timestamp);
        return s;
    }
    let secs = now - timestamp;
    if secs < 60 {
        push_u64(&mut s, secs);
        push_str(&mut s, " seconds ago");
    } else if secs < 3600 {
        push_u64(&mut s, secs / 60);
        push_str(&mut s, " minutes ago");
    } else if secs < 86400 {
        push_u64(&mut s, secs / 3600);
        push_str(&mut s, " hours ago");
    } else {
        push_u64(&mut s, secs / 86400);
        push_str(&mut s, " days ago");
    }
    s
}

// ───────────────────────── Cargo.toml ─────────────────────────

/// Drops every leading `c` (`trim_start_matches`).
pub open spec fn strip_start_char(s: Seq<char>, c: char) -> Seq<char>
    decreases s.len(),
{
    if s.len() > 0 && s[0] == c {
        strip_start_char(s.drop_first(), c)
    } else {
        s
    }
}

/// Drops every trailing `c` (`trim_end_matches`).
pub open spec fn strip_end_char(s: Seq<char>, c: char) -> Seq<char>
    decreases s.len(),
{
    if s.len() > 0 && s.last() == c {
        strip_end_char(s.drop_last(), c)
    } else {
        s
    }
}

/// `str::trim_matches` of one character.
pub open spec fn strip_both(s: Seq<char>, c: char) -> Seq<char> {
    strip_end_char(strip_start_char(s, c), c)
}

/// The index of the first `c` in `s` at or after `i` (`s.len()` if none).
pub open spec fn index_from(s: Seq<char>, c: char, i: int) -> int
    decreases s.len() - i,
{
    if i < 0 || i >= s.len() {
        s.len() as int
    } else if s[i] == c {
        i
    } else {
        index_from(s, c, i + 1)
    }
}

/// The crate name on one manifest line: a trimmed line that starts with
/// `name` and holds `=`; the text between the first `=` and the next one
/// (or the end), trimmed, without surrounding `"` and then `'`, when that is
/// not empty.
pub open spec fn manifest_name_of_line(line: Seq<char>) -> Option<Seq<char>> {
    let t = trim(line);
    let e = index_from(t, '=', 0);
    if !starts_with(t, "name"@) || e >= t.len() {
        None
    } else {
        let e2 = index_from(t, '=', e + 1);
        let name = strip_both(strip_both(trim(t.subrange(e + 1, e2)), '"'), '\'');
        if name.len() == 0 {
            None
        } else {
            Some(name)
        }
    }
}

/// The first crate name found in the lines.
pub open spec fn manifest_name(ls: Seq<Seq<char>>) -> Option<Seq<char>>
    decreases ls.len(),
{
    if ls.len() == 0 {
        None
    } else if manifest_name_of_line(ls[0]) is Some {
        manifest_name_of_line(ls[0])
    } else {
        manifest_name(ls.drop_first())
    }
}

fn index_of_from(v: &[char], c: char, i: usize) -> (r: usize)
    requires
        i <= v@.len(),
    ensures
        r == index_from(v@, c, i as int),
        i <= r <= v@.len(),
{
    let mut k = i;
    while k < v.len() && v[k] != c
        invariant
            i <= k <= v@.len(),
            index_from(v@, c, i as int) == index_from(v@, c, k as int),
        decreases v@.len() - k,
    {
        k = k + 1;
    }
    k
}

fn strip_both_chars(v: &[char], c: char) -> (r: Vec<char>)
    ensures
        r@ == strip_both(v@, c),
{
    let n = v.len();
    let mut a: usize = 0;
    assert(v@.subrange(0, n as int) =~= v@);
    while a < n && v[a] == c
        invariant
            a <= n == v@.len(),
            strip_start_char(v@, c) == strip_start_char(v@.subrange(a as int, n as int), c),
        decreases n - a,
    {
        assert(v@.subrange(a as int, n as int).drop_first() =~= v@.subrange(a + 1, n as int));
        a = a + 1;
    }
    let mut b: usize = n;
    assert(v@.subrange(a as int, n as int).subrange(0, (n - a) as int) =~= v@.subrange(
        a as int,
        n as int,
    ));
    while b > a && v[b - 1] == c
        invariant
            a <= b <= n == v@.len(),
            strip_end_char(v@.subrange(a as int, n as int), c) == strip_end_char(
                v@.subrange(a as int, b as int),
                c,
            ),
        decreases b,
    {
        assert(v@.subrange(a as int, b as int).drop_last() =~= v@.subrange(a as int, b - 1));
        b = b - 1;
    }
    slice_of(v, a, b)
}

fn manifest_name_in(line: &[char]) -> (r: Option<String>)
    ensures
        r matches Some(s) ==> manifest_name_of_line(line@) == Some(s@),
        r is None ==> manifest_name_of_line(line@) is None,
{
    let t = trim_chars(line);
    let e = index_of_from(t.as_slice(), '=', 0);
    if !starts_with_str(t.as_slice(), "name") || e >= t.len() {
        return None;
    }
    let e2 = index_of_from(t.as_slice(), '=', e + 1);
    let mid = slice_of(t.as_slice(), e + 1, e2);
    let tm = trim_chars(mid.as_slice());
    let q = strip_both_chars(tm.as_slice(), '"');
    let name = strip_both_chars(q.as_slice(), '\'');
    if name.len() == 0 {
        None
    } else {
        Some(string_of(name.as_slice()))
    }
}

/// The package name in the text of a `Cargo.toml` (see `manifest_name`).
pub fn crate_name_from_manifest(content: &str) -> (r: Option<String>)
    ensures
        r matches Some(s) ==> manifest_name(lines(content@)) == Some(s@),
        r is None ==> manifest_name(lines(content@)) is None,
{
    let ls = lines_of(content);
    let mut i: usize = 0;
    assert(views(ls@).skip(0) =~= views(ls@));
    while i < ls.len()
        invariant
            i <= ls@.len(),
            views(ls@) == lines(content@),
            manifest_name(lines(content@)) == manifest_name(views(ls@).skip(i as int)),
        decreases ls@.len() - i,
    {
        assert(views(ls@).skip(i as int)[0] == ls@[i as int]@);
        assert(views(ls@).skip(i as int).drop_first() =~= views(ls@).skip(i + 1));
        match manifest_name_in(ls[i].as_slice()) {
            Some(n) => return Some(n),
            None => {},
        }
        i = i + 1;
    }
    None
}

// ───────────────────────── scene files ─────────────────────────

/// `Path::extension` of a file name: the part after the last `.`, unless
/// there is no `.` or the only one starts the name.
pub open spec fn extension(name: Seq<char>) -> Option<Seq<char>> {
    let i = last_index_of(name, '.');
    if i <= 0 {
        None
    } else {
        Some(name.subrange(i + 1, name.len() as int))
    }
}

/// Whether a file name has the extension `bscene`, in any case.
pub open spec fn is_bscene_name(name: Seq<char>) -> bool {
    extension(name) matches Some(e) && lower_seq(e) == "bscene"@
}

/// A directory entry: its full path and its file name.
#[derive(Debug, Clone)]
pub struct DirEntryName {
    pub path: String,
    pub file_name: String,
}

/// The paths of the entries that are `.bscene` files (by name), sorted.
pub fn list_project_bscenes(entries: &Vec<DirEntryName>) -> (r: Vec<String>)
    ensures
        sorted_strs(str_views(r@)),
        r@.to_multiset() == entries@.filter(|e: DirEntryName| is_bscene_name(e.file_name@)).map_values(
            |e: DirEntryName| e.path,
        ).to_multiset(),
{
    let ghost pred = |e: DirEntryName| is_bscene_name(e.file_name@);
    let ghost proj = |e: DirEntryName| e.path;
    let mut picked: Vec<String> = Vec::new();
    let mut i: usize = 0;
    assert(entries@.take(0) =~= Seq::<DirEntryName>::empty());
    while i < entries.len()
        invariant
            i <= entries@.len(),
            pred == (|e: DirEntryName| is_bscene_name(e.file_name@)),
            proj == (|e: DirEntryName| e.path),
            picked@ == entries@.take(i as int).filter(pred).map_values(proj),
        decreases entries@.len() - i,
    {
        proof {
            reveal_with_fuel(Seq::filter, 1);
            assert(entries@.take(i + 1).drop_last() =~= entries@.take(i as int));
        }
        let e = &entries[i];
        let name = chars_of(e.file_name.as_str());
        let is_scene = match rfind_char(name.as_slice(), '.') {
            Some(k) => if k == 0 {
                false
            } else {
                let ext = slice_of(name.as_slice(), k + 1, name.len());
                let lower = crate::log_relay::lower_chars(ext.as_slice());
                eq_str(lower.as_slice(), "bscene")
            },
            None => false,
        };
        let ghost before = picked@;
        if is_scene {
            picked.push(e.path.clone());
            assert(picked@ =~= before.push(proj(*e)));
            assert(entries@.take(i + 1).filter(pred) =~= entries@.take(i as int).filter(pred).push(
                *e,
            ));
        } else {
            assert(entries@.take(i + 1).filter(pred) =~= entries@.take(i as int).filter(pred));
        }
        i = i + 1;
    }
    assert(entries@.take(entries@.len() as int) =~= entries@);
    sort_strings(picked)
}

/// Whether an editor tab's path is a Godot scene (`.tscn`).
pub fn is_tscn_path(path: &str) -> (r: bool)
    ensures
        r == ends_with(path@, ".tscn"@),
{
    let v = chars_of(path);
    ends_with_str(v.as_slice(), ".tscn")
}

// ───────────────────────── Godot scene panel ─────────────────────────

/// Frame-by-frame state of the Godot scene panel: the scene file whose parse
/// is cached (with its modification time), the selected node, and the last
/// load error.
#[derive(Debug, Clone)]
pub struct GodotScenePanelState {
    pub cached: Option<(String, u64)>,
    pub selected: Option<usize>,
    pub last_error: Option<String>,
}

impl Default for GodotScenePanelState {
    fn default() -> (s: Self)
        ensures
            s.cached is None,
            s.selected is None,
            s.last_error is None,
    {
        Self { cached: None, selected: None, last_error: None }
    }
}

/// Whether the panel must re-parse: nothing is cached, another file is
/// active, or the cached file's modification time has advanced (an unknown
/// current time does not force a reload).
pub open spec fn needs_reload_spec(
    cached: Option<(String, u64)>,
    active_path: Seq<char>,
    current_mtime: Option<u64>,
) -> bool {
    match cached {
        None => true,
        Some((p, m)) => if p@ != active_path {
            true
        } else {
            match current_mtime {
                Some(t) => t > m,
                None => false,
            }
        },
    }
}

impl GodotScenePanelState {
    /// Drops the cache, the selection and the error.
    pub fn clear(&mut self)
        ensures
            final(self).cached is None,
            final(self).selected is None,
            final(self).last_error is None,
    {
        self.cached = None;
        self.selected = None;
        self.last_error = None;
    }

    /// Whether the scene of `active_path` must be parsed again.
    pub fn needs_reload(&self, active_path: &str, current_mtime: Option<u64>) -> (r: bool)
        ensures
            r == needs_reload_spec(self.cached, active_path@, current_mtime),
    {
        match &self.cached {
            None => true,
            Some((p, m)) => {
                let pv = chars_of(p.as_str());
                let av = chars_of(active_path);
                if !seq_eq(pv.as_slice(), av.as_slice()) {
                    true
                } else {
                    match current_mtime {
                        Some(t) => t > *m,
                        None => false,
                    }
                }
            },
        }
    }
}

// ───────────────────────── small state types ─────────────────────────

/// Settings-panel cache for the most recent Ollama `/api/version` probe.
#[derive(Debug, Clone, Default)]
pub enum OllamaProbeStatus {
    #[default]
    Unknown,
    Probing,
    Connected(String),
    Error(String),
}

/// Whether the egui fonts have been configured.
#[derive(Debug, Clone, Copy, Default)]
pub struct EguiFontsConfigured(pub bool);

} // verus!
