//! Mobile-runtime log relay: severity classification of log lines and a
//! bounded FIFO buffer of recent lines.
use crate::text::{
    chars_of, contains, find_from, contains_str, eq_str, is_alnum, is_ascii_alphanumeric, is_whitespace,
    is_ws, lower_seq, to_ascii_lower, trim_start, trim_start_chars, views, words, words_of,
    Separator,
};
use std::collections::VecDeque;
use std::time::Instant;
use vstd::prelude::*;

verus! {

#[verifier::external_type_specification]
#[verifier::external_body]
pub struct ExInstant(Instant);

/// `Instant` is `Copy`; its `clone` (derived) returns the same instant.
pub assume_specification[ <std::time::Instant as Clone>::clone ](i: &Instant) -> (r: Instant)
    ensures
        r == *i,
;

/// The current instant.
///
/// Calls `Instant::now`; the value depends on the clock, so nothing is
/// stated of it.
#[verifier::external_body]
fn instant_now() -> Instant {
    Instant::now()
}

#[derive(Debug, Clone, Copy, PartialEq, Eq, Structural)]
pub enum LogSeverity {
    Trace,
    Debug,
    Info,
    Warn,
    Error,
    /// Bevy / Rust panic.
    Panic,
    /// Could not classify.
    Unknown,
}

pub open spec fn severity_label(s: LogSeverity) -> Seq<char> {
    match s {
        LogSeverity::Trace => "TRACE"@,
        LogSeverity::Debug => "DEBUG"@,
        LogSeverity::Info => "INFO"@,
        LogSeverity::Warn => "WARN"@,
        LogSeverity::Error => "ERROR"@,
        LogSeverity::Panic => "PANIC"@,
        LogSeverity::Unknown => "\u{2014}"@,
    }
}

impl LogSeverity {
    pub fn label(self) -> (r: &'static str)
        ensures
            r@ == severity_label(self),
    {
        match self {
            Self::Trace => "TRACE",
            Self::Debug => "DEBUG",
            Self::Info => "INFO",
            Self::Warn => "WARN",
            Self::Error => "ERROR",
            Self::Panic => "PANIC",
            Self::Unknown => "\u{2014}",
        }
    }
}

#[derive(Debug, Clone)]
pub struct LogLine {
    pub severity: LogSeverity,
    pub text: String,
    /// When the line arrived.
    pub received_at: Instant,
}

// ───────────────────────── classification ─────────────────────────

/// A character allowed inside a logcat tag.
pub open spec fn tag_char(c: char) -> bool {
    is_alnum(c) || c == '_' || c == '.'
}

/// The first index at or after `i` whose character is not a tag character
/// (`s.len()` when there is none).
pub open spec fn tag_end_from(s: Seq<char>, i: int) -> int
    decreases s.len() - i,
{
    if i < 0 || i >= s.len() {
        s.len() as int
    } else if !tag_char(s[i]) {
        i
    } else {
        tag_end_from(s, i + 1)
    }
}

/// The first index at or after `i` whose character is not whitespace
/// (`s.len()` when there is none).
pub open spec fn non_ws_from(s: Seq<char>, i: int) -> int
    decreases s.len() - i,
{
    if i < 0 || i >= s.len() {
        s.len() as int
    } else if !is_ws(s[i]) {
        i
    } else {
        non_ws_from(s, i + 1)
    }
}

/// The severity of a logcat priority letter.
pub open spec fn logcat_priority(c: char) -> Option<LogSeverity> {
    if c == 'E' {
        Some(LogSeverity::Error)
    } else if c == 'W' {
        Some(LogSeverity::Warn)
    } else if c == 'I' {
        Some(LogSeverity::Info)
    } else if c == 'D' {
        Some(LogSeverity::Debug)
    } else if c == 'V' {
        Some(LogSeverity::Trace)
    } else {
        None
    }
}

/// `Some(severity)` iff `s` opens with `X/Tag(` or `X/Tag:` (whitespace is
/// allowed between the tag and `(`), where the tag starts with an ASCII
/// letter or digit and `X` is a logcat priority letter.
pub open spec fn adb_priority(s: Seq<char>) -> Option<LogSeverity> {
    if s.len() < 3 || s[1] != '/' || !is_alnum(s[2]) {
        None
    } else {
        let j = tag_end_from(s, 3);
        if j >= s.len() {
            None
        } else {
            let a = s[j];
            let k = non_ws_from(s, j + 1);
            let shape = a == '(' || a == ':' || (is_ws(a) && k < s.len() && s[k] == '(');
            if shape {
                logcat_priority(s[0])
            } else {
                None
            }
        }
    }
}

/// The severity named by a whole word of a tracing / `RUST_LOG` line.
pub open spec fn level_word(w: Seq<char>) -> Option<LogSeverity> {
    if w == "ERROR"@ {
        Some(LogSeverity::Error)
    } else if w == "WARN"@ || w == "WARNING"@ {
        Some(LogSeverity::Warn)
    } else if w == "INFO"@ {
        Some(LogSeverity::Info)
    } else if w == "DEBUG"@ {
        Some(LogSeverity::Debug)
    } else if w == "TRACE"@ {
        Some(LogSeverity::Trace)
    } else {
        None
    }
}

/// The severity of the first word of `ws` that names one.
pub open spec fn first_level(ws: Seq<Seq<char>>) -> Option<LogSeverity>
    decreases ws.len(),
{
    if ws.len() == 0 {
        None
    } else if level_word(ws[0]) is Some {
        level_word(ws[0])
    } else {
        first_level(ws.drop_first())
    }
}

/// Whether the (ASCII-lower-cased) line reports a panic.
pub open spec fn mentions_panic(lower: Seq<char>) -> bool {
    contains(lower, "panicked at"@) || (contains(lower, "thread '"@) && contains(
        lower,
        "' panicked"@,
    ))
}

/// The severity of a log line, by these rules in order, on the line with its
/// leading whitespace removed: empty → Unknown; a panic message → Panic; a
/// logcat header → its priority; the first whole ASCII-letter word naming a
/// level (tracing / `RUST_LOG` style); `<Error>` → Error; `<Warning>` → Warn
/// (Apple unified log markers); otherwise Unknown.
pub open spec fn classify_spec(line: Seq<char>) -> LogSeverity {
    let t = trim_start(line);
    if t.len() == 0 {
        LogSeverity::Unknown
    } else if mentions_panic(lower_seq(t)) {
        LogSeverity::Panic
    } else if adb_priority(t) is Some {
        adb_priority(t)->0
    } else if first_level(words(t, Separator::NonAsciiLetter)) is Some {
        first_level(words(t, Separator::NonAsciiLetter))->0
    } else if contains(t, "<Error>"@) {
        LogSeverity::Error
    } else if contains(t, "<Warning>"@) {
        LogSeverity::Warn
    } else {
        LogSeverity::Unknown
    }
}

/// The characters of `v`, each ASCII-lower-cased.
pub fn lower_chars(v: &[char]) -> (res: Vec<char>)
    ensures
        res@ == lower_seq(v@),
{
    let mut res: Vec<char> = Vec::new();
    let mut i: usize = 0;
    while i < v.len()
        invariant
            i <= v@.len(),
            res@ =~= lower_seq(v@.take(i as int)),
        decreases v@.len() - i,
    {
        res.push(to_ascii_lower(v[i]));
        i = i + 1;
    }
    assert(v@.take(v@.len() as int) =~= v@);
    res
}

/// Classify a single log line (see `classify_spec`).
pub fn classify(line: &str) -> (r: LogSeverity)
    ensures
        r == classify_spec(line@),
{
    let all = chars_of(line);
    let trimmed = trim_start_chars(all.as_slice());
    if trimmed.len() == 0 {
        return LogSeverity::Unknown;
    }
    let lower = lower_chars(trimmed.as_slice());
    if contains_str(lower.as_slice(), "panicked at") || (contains_str(lower.as_slice(), "thread '")
        && contains_str(lower.as_slice(), "' panicked")) {
        return LogSeverity::Panic;
    }
    if let Some(sev) = adb_priority_tail(trimmed.as_slice()) {
        return sev;
    }
    let ws = words_of(trimmed.as_slice(), Separator::NonAsciiLetter);
    let mut i: usize = 0;
    assert(views(ws@).skip(0) =~= views(ws@));
    while i < ws.len()
        invariant
            i <= ws@.len(),
            views(ws@) == words(trimmed@, Separator::NonAsciiLetter),
            first_level(views(ws@)) == first_level(views(ws@).skip(i as int)),
            trimmed@ == trim_start(line@),
            trimmed@.len() > 0,
            !mentions_panic(lower_seq(trimmed@)),
            adb_priority(trimmed@) is None,
        decreases ws@.len() - i,
    {
        assert(views(ws@).skip(i as int)[0] == ws@[i as int]@);
        assert(views(ws@).skip(i as int).drop_first() =~= views(ws@).skip(i + 1));
        let w = ws[i].as_slice();
        if eq_str(w, "ERROR") {
            return LogSeverity::Error;
        }
        if eq_str(w, "WARN") || eq_str(w, "WARNING") {
            return LogSeverity::Warn;
        }
        if eq_str(w, "INFO") {
            return LogSeverity::Info;
        }
        if eq_str(w, "DEBUG") {
            return LogSeverity::Debug;
        }
        if eq_str(w, "TRACE") {
            return LogSeverity::Trace;
        }
        i = i + 1;
    }
    assert(views(ws@).skip(i as int) =~= Seq::<Seq<char>>::empty());
    if contains_str(trimmed.as_slice(), "<Error>") {
        return LogSeverity::Error;
    }
    if contains_str(trimmed.as_slice(), "<Warning>") {
        return LogSeverity::Warn;
    }
    LogSeverity::Unknown
}

/// `adb_priority` of a character vector.
fn adb_priority_tail(line: &[char]) -> (r: Option<LogSeverity>)
    ensures
        r == adb_priority(line@),
{
    if line.len() < 3 || line[1] != '/' || !is_ascii_alphanumeric(line[2]) {
        return None;
    }
    let n = line.len();
    let mut j: usize = 3;
    while j < n && (is_ascii_alphanumeric(line[j]) || line[j] == '_' || line[j] == '.')
        invariant
            3 <= j <= n == line@.len(),
            tag_end_from(line@, 3) == tag_end_from(line@, j as int),
        decreases n - j,
    {
        j = j + 1;
    }
    if j >= n {
        return None;
    }
    let after = line[j];
    let is_logcat_shape = if after == '(' || after == ':' {
        true
    } else if is_whitespace(after) {
        let mut k: usize = j + 1;
        while k < n && is_whitespace(line[k])
            invariant
                j < k <= n == line@.len(),
                non_ws_from(line@, j + 1) == non_ws_from(line@, k as int),
            decreases n - k,
        {
            k = k + 1;
        }
        k < n && line[k] == '('
    } else {
        false
    };
    if !is_logcat_shape {
        return None;
    }
    let prio = line[0];
    if prio == 'E' {
        Some(LogSeverity::Error)
    } else if prio == 'W' {
        Some(LogSeverity::Warn)
    } else if prio == 'I' {
        Some(LogSeverity::Info)
    } else if prio == 'D' {
        Some(LogSeverity::Debug)
    } else if prio == 'V' {
        Some(LogSeverity::Trace)
    } else {
        None
    }
}

// ───────────────────────── bounded buffer ─────────────────────────

/// Bounded log buffer, capped FIFO at `cap` lines: once full, the oldest
/// entry drops first.
#[derive(Debug)]
pub struct LogStream {
    buf: VecDeque<LogLine>,
    cap: usize,
}

/// What a stored line is for the contracts: its severity and its text.
pub open spec fn entry_view(l: LogLine) -> (LogSeverity, Seq<char>) {
    (l.severity, l.text@)
}

impl LogStream {
    /// The stored lines, oldest first.
    pub closed spec fn entries(&self) -> Seq<LogLine> {
        self.buf@
    }

    /// The cap the stream was made with.
    pub closed spec fn capacity(&self) -> nat {
        self.cap as nat
    }

    /// The stored lines as (severity, text), oldest first.
    pub open spec fn contents(&self) -> Seq<(LogSeverity, Seq<char>)> {
        self.entries().map_values(|l: LogLine| entry_view(l))
    }

    pub fn new(cap: usize) -> (s: Self)
        ensures
            s.contents() == Seq::<(LogSeverity, Seq<char>)>::empty(),
            s.capacity() == cap,
    {
        let initial = if cap < 1024 {
            cap
        } else {
            1024
        };
        let s = Self { buf: VecDeque::with_capacity(initial), cap };
        assert(s.contents() =~= Seq::<(LogSeverity, Seq<char>)>::empty());
        s
    }

    /// Classifies `raw` and appends it; when the buffer already holds `cap`
    /// lines the oldest one is dropped first. A stream capped at zero lines
    /// keeps none.
    pub fn push_line(&mut self, raw: String)
        ensures
            final(self).capacity() == old(self).capacity(),
            old(self).capacity() == 0 ==> final(self).contents() == old(self).contents(),
            old(self).capacity() > 0 ==> final(self).contents() == (if old(self).contents().len()
                == old(self).capacity() {
                old(self).contents().drop_first()
            } else {
                old(self).contents()
            }).push((classify_spec(raw@), raw@)),
    {
        if self.cap == 0 {
            return;
        }
        let severity = classify(raw.as_str());
        if self.buf.len() == self.cap {
            self.buf.pop_front();
        }
        let line = LogLine { severity, text: raw, received_at: instant_now() };
        self.buf.push_back(line);
        proof {
            let o = old(self).contents();
            let n = final(self).contents();
            let exp = (if o.len() == old(self).capacity() {
                o.drop_first()
            } else {
                o
            }).push((severity, line.text@));
            assert(n =~= exp);
        }
    }

    pub fn clear(&mut self)
        ensures
            final(self).contents() == Seq::<(LogSeverity, Seq<char>)>::empty(),
            final(self).capacity() == old(self).capacity(),
    {
        self.buf.clear();
        assert(self.contents() =~= Seq::<(LogSeverity, Seq<char>)>::empty());
    }

    pub fn len(&self) -> (n: usize)
        ensures
            n == self.contents().len(),
    {
        self.buf.len()
    }

    /// The stored lines, oldest first.
    pub fn iter(&self) -> (it: std::collections::vec_deque::Iter<'_, LogLine>)
        ensures
            vstd::std_specs::iter::IteratorSpec::remaining(&it) == self.entries().map_values(
                |l: LogLine| &l,
            ),
    {
        let it = self.buf.iter();
        assert(self.buf@.as_ref() =~= self.entries().map_values(|l: LogLine| &l));
        it
    }
}

impl Default for LogStream {
    /// 4096 lines.
    fn default() -> (s: Self)
        ensures
            s.contents() == Seq::<(LogSeverity, Seq<char>)>::empty(),
            s.capacity() == 4096,
    {
        Self::new(4096)
    }
}

/// A stream never holds more than its cap: pushing into a stream that holds
/// at most `cap` lines leaves it holding at most `cap` lines (none when the
/// cap is zero).
pub proof fn lemma_push_keeps_cap(before: Seq<(LogSeverity, Seq<char>)>, cap: nat, e: (LogSeverity, Seq<char>))
    requires
        before.len() <= cap,
    ensures
        (if cap == 0 {
            before
        } else {
            (if before.len() == cap {
                before.drop_first()
            } else {
                before
            }).push(e)
        }).len() <= cap,
{
}

/// Whether a word is one of the level names a tracing line can carry.
pub open spec fn names_a_level(w: Seq<char>) -> bool {
    w == "ERROR"@ || w == "WARN"@ || w == "WARNING"@ || w == "INFO"@ || w == "DEBUG"@ || w
        == "TRACE"@
}

/// A line with no panic text and no logcat header is classified by the
/// first of its whole ASCII-letter words that names a level: `ERROR` gives
/// Error, `WARN` or `WARNING` Warn, `INFO` Info, `DEBUG` Debug and `TRACE`
/// Trace, whatever markers follow.
pub proof fn lemma_level_word_decides(line: Seq<char>, k: int)
    requires
        !mentions_panic(lower_seq(trim_start(line))),
        adb_priority(trim_start(line)) is None,
        0 <= k < words(trim_start(line), Separator::NonAsciiLetter).len(),
        forall|m: int|
            0 <= m < k ==> !names_a_level(
                #[trigger] words(trim_start(line), Separator::NonAsciiLetter)[m],
            ),
    ensures
        ({
            let w = words(trim_start(line), Separator::NonAsciiLetter)[k];
            &&& w == "ERROR"@ ==> classify_spec(line) == LogSeverity::Error
            &&& (w == "WARN"@ || w == "WARNING"@) ==> classify_spec(line) == LogSeverity::Warn
            &&& w == "INFO"@ ==> classify_spec(line) == LogSeverity::Info
            &&& w == "DEBUG"@ ==> classify_spec(line) == LogSeverity::Debug
            &&& w == "TRACE"@ ==> classify_spec(line) == LogSeverity::Trace
        }),
{
    reveal_strlit("ERROR");
    reveal_strlit("WARN");
    reveal_strlit("WARNING");
    reveal_strlit("INFO");
    reveal_strlit("DEBUG");
    reveal_strlit("TRACE");
    let t = trim_start(line);
    let ws = words(t, Separator::NonAsciiLetter);
    if t.len() == 0 {
        assert(ws.len() == 0);
    }
    lemma_first_level_skips(ws, k);
    assert(t.len() > 0);
    if names_a_level(ws[k]) {
        assert(level_word(ws[k]) is Some);
        assert(first_level(ws) is Some);
        assert(classify_spec(line) == first_level(ws)->0);
    }
    let lits = seq!["ERROR"@, "WARN"@, "WARNING"@, "INFO"@, "DEBUG"@, "TRACE"@];
    assert(lits[0].len() == 5 && lits[1].len() == 4 && lits[2].len() == 7 && lits[3].len() == 4
        && lits[4].len() == 5 && lits[5].len() == 5);
    assert(lits[0][0] == 'E' && lits[1][0] == 'W' && lits[3][0] == 'I' && lits[4][0] == 'D'
        && lits[5][0] == 'T');
}

/// Words before `k` that name no level are passed over.
proof fn lemma_first_level_skips(ws: Seq<Seq<char>>, k: int)
    requires
        0 <= k < ws.len(),
        forall|m: int| 0 <= m < k ==> !names_a_level(#[trigger] ws[m]),
    ensures
        names_a_level(ws[k]) ==> first_level(ws) == level_word(ws[k]),
    decreases k,
{
    if k > 0 {
        assert(!names_a_level(ws[0]));
        let rest = ws.drop_first();
        assert forall|m: int| 0 <= m < k - 1 implies !names_a_level(#[trigger] rest[m]) by {
            assert(rest[m] == ws[m + 1]);
        }
        lemma_first_level_skips(rest, k - 1);
        assert(rest[k - 1] == ws[k]);
    }
}

/// A line that mentions a panic (`panicked at`, or `thread '…' panicked`,
/// in any case) is a Panic whatever else it holds.
pub proof fn lemma_panic_lines(line: Seq<char>)
    requires
        contains(lower_seq(trim_start(line)), "panicked at"@),
    ensures
        classify_spec(line) == LogSeverity::Panic,
{
    reveal_strlit("panicked at");
    if trim_start(line).len() == 0 {
        assert(lower_seq(trim_start(line)).len() == 0);
        assert(find_from(lower_seq(trim_start(line)), "panicked at"@, 0) is None);
    }
}

/// Apple unified log markers decide a line with no panic text, no logcat
/// header and no level word: `<Error>` gives Error, else `<Warning>` Warn.
pub proof fn lemma_apple_markers(line: Seq<char>)
    requires
        !mentions_panic(lower_seq(trim_start(line))),
        adb_priority(trim_start(line)) is None,
        forall|m: int|
            0 <= m < words(trim_start(line), Separator::NonAsciiLetter).len() ==> !names_a_level(
                #[trigger] words(trim_start(line), Separator::NonAsciiLetter)[m],
            ),
    ensures
        contains(trim_start(line), "<Error>"@) ==> classify_spec(line) == LogSeverity::Error,
        !contains(trim_start(line), "<Error>"@) && contains(trim_start(line), "<Warning>"@)
            ==> classify_spec(line) == LogSeverity::Warn,
{
    reveal_strlit("<Error>");
    reveal_strlit("<Warning>");
    let t = trim_start(line);
    let ws = words(t, Separator::NonAsciiLetter);
    lemma_no_level_word(ws);
    if t.len() == 0 {
        assert(find_from(t, "<Error>"@, 0) is None);
        assert(find_from(t, "<Warning>"@, 0) is None);
    }
}

/// Words none of which names a level give no level.
proof fn lemma_no_level_word(ws: Seq<Seq<char>>)
    requires
        forall|m: int| 0 <= m < ws.len() ==> !names_a_level(#[trigger] ws[m]),
    ensures
        first_level(ws) is None,
    decreases ws.len(),
{
    if ws.len() > 0 {
        assert(!names_a_level(ws[0]));
        let rest = ws.drop_first();
        assert forall|m: int| 0 <= m < rest.len() implies !names_a_level(#[trigger] rest[m]) by {
            assert(rest[m] == ws[m + 1]);
        }
        lemma_no_level_word(rest);
    }
}

} // verus!
