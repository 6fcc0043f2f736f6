//! The completion popup's decisions: the word being typed before the
//! cursor, which completions match it, how the arrow keys move the
//! selection, what accepting inserts and where the cursor lands, and how an
//! entry is shown. Drawing the popup is left to the caller.
use crate::text::{
    chars_of, is_alphanumeric, owned, push_str, starts_with, starts_with_str, to_lowercase,
    unicode_alphanumeric, unicode_lowercase,
};
use crate::ui_colors::Rgb;
use vstd::prelude::*;
use vstd::utf8::{decode_utf8, encode_utf8, is_char_boundary};

verus! {

/// One completion offered by the language server.
#[derive(Debug, Clone)]
pub struct CompletionItem {
    pub label: String,
    /// The LSP kind's name, as `Function` or `Struct`.
    pub kind: String,
    pub detail: Option<String>,
    pub insert_text: Option<String>,
}

// ───────────────────────── the word before the cursor ─────────────────────────

/// A character of an identifier: alphanumeric or `_`.
pub open spec fn is_word_char(c: char) -> bool {
    unicode_alphanumeric(c) || c == '_'
}

/// Where the identifier that ends at `cursor` starts.
pub open spec fn word_start(s: Seq<char>, cursor: int) -> int
    decreases cursor,
{
    if cursor > 0 && is_word_char(s[cursor - 1]) {
        word_start(s, cursor - 1)
    } else {
        cursor
    }
}

proof fn lemma_word_start_bounds(s: Seq<char>, cursor: int)
    requires
        0 <= cursor <= s.len(),
    ensures
        0 <= word_start(s, cursor) <= cursor,
    decreases cursor,
{
    if cursor > 0 && is_word_char(s[cursor - 1]) {
        lemma_word_start_bounds(s, cursor - 1);
    }
}

/// Where the identifier that ends at `cursor` (a character index) starts.
pub fn word_start_of(chars: &[char], cursor: usize) -> (r: usize)
    requires
        cursor <= chars@.len(),
    ensures
        r == word_start(chars@, cursor as int),
{
    let mut start = cursor;
    while start > 0 && (is_alphanumeric(chars[start - 1]) || chars[start - 1] == '_')
        invariant
            start <= cursor <= chars@.len(),
            word_start(chars@, cursor as int) == word_start(chars@, start as int),
        decreases start,
    {
        start = start - 1;
    }
    start
}

/// The word being typed: the identifier before the cursor, lowercased.
pub open spec fn current_word_spec(text: Seq<char>, cursor: int) -> Seq<char> {
    unicode_lowercase(text.subrange(word_start(text, cursor), cursor))
}

/// The word being typed at `cursor` (a character index), lowercased.
pub fn current_word(text: &str, cursor: usize) -> (r: String)
    requires
        cursor <= text@.len(),
    ensures
        r@ == current_word_spec(text@, cursor as int),
{
    let chars = chars_of(text);
    let start = word_start_of(chars.as_slice(), cursor);
    proof {
        lemma_word_start_bounds(text@, cursor as int);
    }
    let mut word = String::new();
    let mut i = start;
    while i < cursor
        invariant
            start <= i <= cursor <= chars@.len(),
            chars@ == text@,
            word@ == text@.subrange(start as int, i as int),
        decreases cursor - i,
    {
        crate::text::push_char(&mut word, chars[i]);
        assert(text@.subrange(start as int, i + 1) =~= text@.subrange(start as int, i as int).push(
            text@[i as int],
        ));
        i = i + 1;
    }
    to_lowercase(word.as_str())
}

// ───────────────────────── matching ─────────────────────────

/// Whether a completion matches the word being typed: every completion
/// matches an empty word; otherwise its lowercased label starts with it.
pub open spec fn completion_matches(item: CompletionItem, word: Seq<char>) -> bool {
    word.len() == 0 || starts_with(unicode_lowercase(item.label@), word)
}

fn clone_item(item: &CompletionItem) -> (r: CompletionItem)
    ensures
        r == *item,
{
    CompletionItem {
        label: item.label.clone(),
        kind: item.kind.clone(),
        detail: match &item.detail {
            Some(d) => Some(d.clone()),
            None => None,
        },
        insert_text: match &item.insert_text {
            Some(t) => Some(t.clone()),
            None => None,
        },
    }
}

/// The completions that match the word being typed, in order.
pub fn filter_completions(items: &Vec<CompletionItem>, word: &str) -> (r: Vec<CompletionItem>)
    ensures
        r@ == items@.filter(|c: CompletionItem| completion_matches(c, word@)),
{
    let ghost keep = |c: CompletionItem| completion_matches(c, word@);
    let mut out: Vec<CompletionItem> = Vec::new();
    let mut i: usize = 0;
    let empty = word.is_empty();
    assert(items@.take(0) =~= Seq::<CompletionItem>::empty());
    while i < items.len()
        invariant
            i <= items@.len(),
            keep == (|c: CompletionItem| completion_matches(c, word@)),
            empty == (word@.len() == 0),
            out@ == items@.take(i as int).filter(keep),
        decreases items@.len() - i,
    {
        proof {
            reveal_with_fuel(Seq::filter, 1);
            assert(items@.take(i + 1).drop_last() =~= items@.take(i as int));
        }
        let item = &items[i];
        let m = if empty {
            true
        } else {
            let lower = to_lowercase(item.label.as_str());
            let lv = chars_of(lower.as_str());
            starts_with_str(lv.as_slice(), word)
        };
        if m {
            out.push(clone_item(item));
        }
        i = i + 1;
    }
    assert(items@.take(items@.len() as int) =~= items@);
    out
}

// ───────────────────────── one frame of the popup ─────────────────────────

/// The keys and clicks of one frame that the popup reacts to.
#[derive(Debug, Clone, Copy)]
pub struct CompletionKeys {
    pub escape: bool,
    pub down: bool,
    pub up: bool,
    /// Tab or Enter.
    pub accept: bool,
    /// A click outside the popup.
    pub click_outside: bool,
}

/// What the popup does in a frame.
#[derive(Debug)]
pub enum CompletionFrame {
    /// Hide the popup and drop the completions.
    Dismiss,
    /// Insert this text in place of the word being typed.
    Accept(String),
    /// Show the matching completions with this entry selected.
    Show(usize),
}

/// The selection after the arrow keys: Down moves to the next entry (not
/// past the last), Up to the previous one (not before the first), and a
/// selection past the end goes back to the first entry.
pub open spec fn step_index(index: int, len: int, down: bool, up: bool) -> int {
    let last = if len > 0 {
        len - 1
    } else {
        0
    };
    let a = if down {
        if index + 1 < last {
            index + 1
        } else {
            last
        }
    } else {
        index
    };
    let b = if up {
        if a > 0 {
            a - 1
        } else {
            0
        }
    } else {
        a
    };
    if b >= len {
        0
    } else {
        b
    }
}

/// The text that accepting a completion inserts: its insert text, or else
/// its label.
pub open spec fn accept_text_spec(item: CompletionItem) -> Seq<char> {
    match item.insert_text {
        Some(t) => t@,
        None => item.label@,
    }
}

/// The text that accepting a completion inserts.
pub fn accept_text(item: &CompletionItem) -> (r: String)
    ensures
        r@ == accept_text_spec(*item),
{
    match &item.insert_text {
        Some(t) => owned(t.as_str()),
        None => owned(item.label.as_str()),
    }
}

/// What the popup does in a frame, given the matching completions, the
/// selection and the frame's keys: no match or Escape dismisses; otherwise
/// the arrows move the selection, and then a click outside dismisses, Tab
/// or Enter accepts the selected entry, and else the popup is shown.
pub open spec fn frame_spec(filtered: Seq<CompletionItem>, index: int, keys: CompletionKeys) -> (
    int,
    Seq<char>,
    int,
) {
    if filtered.len() == 0 || keys.escape {
        (0, Seq::empty(), 0)
    } else {
        let i = step_index(index, filtered.len() as int, keys.down, keys.up);
        if keys.click_outside {
            (0, Seq::empty(), 0)
        } else if keys.accept {
            (1, accept_text_spec(filtered[i]), 0)
        } else {
            (2, Seq::empty(), i)
        }
    }
}

/// A frame's outcome in the shape of `frame_spec`.
pub open spec fn frame_shape(f: CompletionFrame) -> (int, Seq<char>, int) {
    match f {
        CompletionFrame::Dismiss => (0, Seq::empty(), 0),
        CompletionFrame::Accept(t) => (1, t@, 0),
        CompletionFrame::Show(i) => (2, Seq::empty(), i as int),
    }
}

/// One frame of the popup. The selection must have room to move down.
pub fn completion_frame(filtered: &Vec<CompletionItem>, index: usize, keys: CompletionKeys) -> (r:
    CompletionFrame)
    requires
        keys.down ==> index < usize::MAX,
    ensures
        frame_shape(r) == frame_spec(filtered@, index as int, keys),
        r matches CompletionFrame::Show(i) ==> i < filtered@.len(),
{
    let len = filtered.len();
    if len == 0 || keys.escape {
        return CompletionFrame::Dismiss;
    }
    let mut idx = index;
    if keys.down {
        let last = len - 1;
        idx = if idx + 1 < last {
            idx + 1
        } else {
            last
        };
    }
    if keys.up {
        idx = if idx > 0 {
            idx - 1
        } else {
            0
        };
    }
    if idx >= len {
        idx = 0;
    }
    if keys.click_outside {
        CompletionFrame::Dismiss
    } else if keys.accept {
        CompletionFrame::Accept(accept_text(&filtered[idx]))
    } else {
        CompletionFrame::Show(idx)
    }
}

// ───────────────────────── inserting ─────────────────────────

/// How many newline bytes a byte string holds.
pub open spec fn newline_count(bs: Seq<u8>) -> nat
    decreases bs.len(),
{
    if bs.len() == 0 {
        0
    } else {
        newline_count(bs.drop_last()) + if bs.last() == 10 {
            1nat
        } else {
            0nat
        }
    }
}

/// Where the last line of a byte string starts: after its last newline, or
/// at 0.
pub open spec fn line_start(bs: Seq<u8>) -> int
    decreases bs.len(),
{
    if bs.len() == 0 {
        0
    } else if bs.last() == 10 {
        bs.len() as int
    } else {
        line_start(bs.drop_last())
    }
}

proof fn lemma_line_start_bounds(bs: Seq<u8>)
    ensures
        0 <= line_start(bs) <= bs.len(),
    decreases bs.len(),
{
    if bs.len() > 0 {
        lemma_line_start_bounds(bs.drop_last());
    }
}

/// Whether the popup's insertion can cut the text where it does: the
/// cursor is within the text, the word start and the cursor, read as byte
/// positions, fall on character boundaries, and the result fits in memory.
pub open spec fn edit_ok(text: Seq<char>, cursor: int, insert: Seq<char>) -> bool {
    let b = encode_utf8(text);
    &&& 0 <= cursor <= text.len()
    &&& is_char_boundary(b, word_start(text, cursor))
    &&& is_char_boundary(b, cursor)
    &&& b.len() + encode_utf8(insert).len() <= usize::MAX
}

/// The text after accepting a completion, and the cursor's new line and
/// column. The word start and the cursor are character positions that the
/// text is cut at as byte positions; the new column is counted in bytes.
pub open spec fn completion_edit(text: Seq<char>, cursor: int, insert: Seq<char>) -> (
    Seq<char>,
    int,
    int,
) {
    let b = encode_utf8(text);
    let ws = word_start(text, cursor);
    let head = b.subrange(0, ws) + encode_utf8(insert);
    (
        decode_utf8(b.subrange(0, ws)) + insert + decode_utf8(b.subrange(cursor, b.len() as int)),
        newline_count(head) as int,
        head.len() - line_start(head),
    )
}

fn count_lines(bs: &[u8], n: usize) -> (r: (usize, usize))
    requires
        n <= bs@.len(),
    ensures
        r.0 == newline_count(bs@.subrange(0, n as int)),
        r.1 == line_start(bs@.subrange(0, n as int)),
{
    let mut count: usize = 0;
    let mut start: usize = 0;
    let mut i: usize = 0;
    assert(bs@.subrange(0, 0) =~= Seq::<u8>::empty());
    while i < n
        invariant
            i <= n <= bs@.len(),
            count <= i,
            start <= i,
            count == newline_count(bs@.subrange(0, i as int)),
            start == line_start(bs@.subrange(0, i as int)),
        decreases n - i,
    {
        assert(bs@.subrange(0, i + 1).drop_last() =~= bs@.subrange(0, i as int));
        if bs[i] == 10 {
            count = count + 1;
            start = i + 1;
        }
        i = i + 1;
    }
    (count, start)
}

/// Accepting a completion: the word before the cursor (a character index)
/// is replaced by `insert`, and the cursor goes after the inserted text.
/// Returns the new text and the cursor's line and column.
pub fn apply_completion(text: &str, cursor: usize, insert: &str) -> (r: (String, usize, usize))
    requires
        edit_ok(text@, cursor as int, insert@),
    ensures
        (r.0@, r.1 as int, r.2 as int) == completion_edit(text@, cursor as int, insert@),
{
    let chars = chars_of(text);
    let ws = word_start_of(chars.as_slice(), cursor);
    proof {
        lemma_word_start_bounds(text@, cursor as int);
        vstd::utf8::encode_utf8_decode_utf8(text@);
    }
    let (before, _) = text.split_at(ws);
    let (_, after) = text.split_at(cursor);
    proof {
        vstd::utf8::encode_utf8_decode_utf8(before@);
        vstd::utf8::encode_utf8_decode_utf8(after@);
    }
    let mut new_text = owned(before);
    push_str(&mut new_text, insert);
    push_str(&mut new_text, after);
    let bb = before.as_bytes();
    let ib = insert.as_bytes();
    let mut head: Vec<u8> = Vec::new();
    let mut k: usize = 0;
    while k < bb.len()
        invariant
            k <= bb@.len(),
            head@ == bb@.subrange(0, k as int),
        decreases bb@.len() - k,
    {
        head.push(bb[k]);
        assert(bb@.subrange(0, k + 1) =~= bb@.subrange(0, k as int).push(bb@[k as int]));
        k = k + 1;
    }
    assert(bb@.subrange(0, bb@.len() as int) =~= bb@);
    assert(ws as int <= encode_utf8(text@).len()) by {
        vstd::utf8::encode_utf8_valid_utf8(text@);
    }
    assert(bb@ == encode_utf8(text@).subrange(0, ws as int));
    assert(ib@ == encode_utf8(insert@));
    let mut j: usize = 0;
    while j < ib.len()
        invariant
            j <= ib@.len(),
            bb@.len() + ib@.len() <= usize::MAX,
            head@ == bb@ + ib@.subrange(0, j as int),
        decreases ib@.len() - j,
    {
        head.push(ib[j]);
        assert(ib@.subrange(0, j + 1) =~= ib@.subrange(0, j as int).push(ib@[j as int]));
        j = j + 1;
    }
    assert(ib@.subrange(0, ib@.len() as int) =~= ib@);
    let n = head.len();
    let (line, start) = count_lines(head.as_slice(), n);
    assert(head@.subrange(0, n as int) =~= head@);
    proof {
        lemma_line_start_bounds(head@);
    }
    (new_text, line, n - start)
}

// ───────────────────────── showing an entry ─────────────────────────

/// An entry's detail as shown: cut to its first 27 bytes and `...` when it
/// is longer than 30 bytes.
pub open spec fn short_detail_spec(d: Seq<char>) -> Seq<char> {
    if encode_utf8(d).len() > 30 {
        decode_utf8(encode_utf8(d).subrange(0, 27)) + "..."@
    } else {
        d
    }
}

/// Whether a detail can be cut after its first 27 bytes (it is at most 30
/// bytes long, or byte 27 starts a character).
pub open spec fn short_detail_ok(d: Seq<char>) -> bool {
    encode_utf8(d).len() > 30 ==> is_char_boundary(encode_utf8(d), 27)
}

/// An entry's detail as shown in the popup.
pub fn short_detail(d: &str) -> (r: String)
    requires
        short_detail_ok(d@),
    ensures
        r@ == short_detail_spec(d@),
{
    let n = d.as_bytes().len();
    if n > 30 {
        let (head, _) = d.split_at(27);
        proof {
            vstd::utf8::encode_utf8_decode_utf8(head@);
        }
        let mut out = owned(head);
        push_str(&mut out, "...");
        out
    } else {
        owned(d)
    }
}

/// The icon letter and colour of a completion kind.
pub open spec fn kind_icon(kind: Seq<char>) -> (Seq<char>, (u8, u8, u8)) {
    if kind == "Function"@ || kind == "Method"@ {
        ("f"@, (220, 170, 250))
    } else if kind == "Variable"@ {
        ("v"@, (120, 180, 240))
    } else if kind == "Field"@ {
        ("f"@, (120, 180, 240))
    } else if kind == "Struct"@ || kind == "Class"@ {
        ("S"@, (240, 200, 80))
    } else if kind == "Module"@ {
        ("M"@, (200, 200, 200))
    } else if kind == "Keyword"@ {
        ("k"@, (86, 156, 214))
    } else if kind == "Enum"@ || kind == "EnumMember"@ {
        ("E"@, (240, 200, 80))
    } else if kind == "Constant"@ {
        ("C"@, (100, 180, 255))
    } else if kind == "Trait"@ || kind == "TypeParameter"@ {
        ("T"@, (78, 201, 176))
    } else {
        ("a"@, (150, 150, 150))
    }
}

fn is_kind(kind: &str, name: &str) -> (r: bool)
    ensures
        r == (kind@ == name@),
{
    let a = chars_of(kind);
    let b = chars_of(name);
    crate::text::seq_eq(a.as_slice(), b.as_slice())
}

/// The icon letter and colour shown before a completion of this kind.
pub fn completion_icon(kind: &str) -> (r: (&'static str, Rgb))
    ensures
        (r.0@, (r.1.r, r.1.g, r.1.b)) == kind_icon(kind@),
{
    if is_kind(kind, "Function") || is_kind(kind, "Method") {
        ("f", Rgb { r: 220, g: 170, b: 250 })
    } else if is_kind(kind, "Variable") {
        ("v", Rgb { r: 120, g: 180, b: 240 })
    } else if is_kind(kind, "Field") {
        ("f", Rgb { r: 120, g: 180, b: 240 })
    } else if is_kind(kind, "Struct") || is_kind(kind, "Class") {
        ("S", Rgb { r: 240, g: 200, b: 80 })
    } else if is_kind(kind, "Module") {
        ("M", Rgb { r: 200, g: 200, b: 200 })
    } else if is_kind(kind, "Keyword") {
        ("k", Rgb { r: 86, g: 156, b: 214 })
    } else if is_kind(kind, "Enum") || is_kind(kind, "EnumMember") {
        ("E", Rgb { r: 240, g: 200, b: 80 })
    } else if is_kind(kind, "Constant") {
        ("C", Rgb { r: 100, g: 180, b: 255 })
    } else if is_kind(kind, "Trait") || is_kind(kind, "TypeParameter") {
        ("T", Rgb { r: 78, g: 201, b: 176 })
    } else {
        ("a", Rgb { r: 150, g: 150, b: 150 })
    }
}

} // verus!
