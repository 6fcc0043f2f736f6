//! Character-level text utilities shared by the parsers of this crate.
//!
//! Strings are modelled by their `Seq<char>` views. Every helper here states
//! its result over the spec functions defined alongside it, which follow the
//! documented behaviour of the matching `str` methods of the standard library
//! (`trim`, `lines`, `split_whitespace`, `find`, ...).
use vstd::prelude::*;

verus! {

// ───────────────────────── character classes ─────────────────────────

/// `char::is_whitespace`: the Unicode `White_Space` property.
pub open spec fn is_ws(c: char) -> bool {
    let u = c as u32;
    (0x9 <= u && u <= 0xd) || u == 0x20 || u == 0x85 || u == 0xa0 || u == 0x1680 || (0x2000 <= u
        && u <= 0x200a) || u == 0x2028 || u == 0x2029 || u == 0x202f || u == 0x205f || u == 0x3000
}

pub open spec fn is_digit(c: char) -> bool {
    '0' <= c && c <= '9'
}

pub open spec fn is_upper(c: char) -> bool {
    'A' <= c && c <= 'Z'
}

pub open spec fn is_lower(c: char) -> bool {
    'a' <= c && c <= 'z'
}

pub open spec fn is_alpha(c: char) -> bool {
    is_upper(c) || is_lower(c)
}

pub open spec fn is_alnum(c: char) -> bool {
    is_alpha(c) || is_digit(c)
}

/// `char::to_ascii_lowercase`.
pub open spec fn lower_char(c: char) -> char {
    if is_upper(c) {
        ((c as u32) + 32) as char
    } else {
        c
    }
}

/// `str::to_ascii_lowercase`, character by character.
pub open spec fn lower_seq(s: Seq<char>) -> Seq<char> {
    s.map_values(|c: char| lower_char(c))
}

/// `char::is_whitespace`.
pub fn is_whitespace(c: char) -> (r: bool)
    ensures
        r == is_ws(c),
{
    let u = c as u32;
    (0x9 <= u && u <= 0xd) || u == 0x20 || u == 0x85 || u == 0xa0 || u == 0x1680 || (0x2000 <= u
        && u <= 0x200a) || u == 0x2028 || u == 0x2029 || u == 0x202f || u == 0x205f || u == 0x3000
}

/// `char::is_ascii_digit`.
pub fn is_ascii_digit(c: char) -> (r: bool)
    ensures
        r == is_digit(c),
{
    '0' <= c && c <= '9'
}

/// `char::is_ascii_alphabetic`.
pub fn is_ascii_alphabetic(c: char) -> (r: bool)
    ensures
        r == is_alpha(c),
{
    ('A' <= c && c <= 'Z') || ('a' <= c && c <= 'z')
}

/// `char::is_ascii_alphanumeric`.
pub fn is_ascii_alphanumeric(c: char) -> (r: bool)
    ensures
        r == is_alnum(c),
{
    ('A' <= c && c <= 'Z') || ('a' <= c && c <= 'z') || ('0' <= c && c <= '9')
}

/// `char::to_ascii_lowercase`.
pub fn to_ascii_lower(c: char) -> (r: char)
    ensures
        r == lower_char(c),
{
    if 'A' <= c && c <= 'Z' {
        let u: u32 = (c as u32) + 32;
        assert(u < 0xd800);
        char_from_u32_below_surrogates(u)
    } else {
        c
    }
}

/// Builds a `char` from a code point that lies below the surrogate range.
#[verifier::external_body]
fn char_from_u32_below_surrogates(u: u32) -> (c: char)
    requires
        u < 0xd800,
    ensures
        c as u32 == u,
{
    // `char::from_u32` returns `Some` for every value below the surrogates.
    char::from_u32(u).unwrap()
}

/// The name of `char::is_alphanumeric` (Unicode `Alphabetic` or `Numeric`).
pub uninterp spec fn unicode_alphanumeric(c: char) -> bool;

/// `char::is_alphanumeric`. Its documentation defines the result as the
/// Unicode `Alphabetic` or `Numeric` property; among ASCII characters those
/// are exactly the letters and digits. Nothing more is stated of other chars.
#[verifier::external_body]
pub(crate) fn is_alphanumeric(c: char) -> (r: bool)
    ensures
        r == unicode_alphanumeric(c),
        (c as u32) < 128 ==> (r == is_alnum(c)),
{
    c.is_alphanumeric()
}

/// The name of `str::to_lowercase` (full Unicode lower-casing).
pub uninterp spec fn unicode_lowercase(s: Seq<char>) -> Seq<char>;

/// `str::to_lowercase`. For a string of ASCII characters the documentation's
/// mapping is the ASCII one; nothing more is stated of other strings.
#[verifier::external_body]
pub(crate) fn to_lowercase(s: &str) -> (r: String)
    ensures
        r@ == unicode_lowercase(s@),
        (forall|i: int| 0 <= i < s@.len() ==> (#[trigger] s@[i] as u32) < 128) ==> r@ == lower_seq(
            s@,
        ),
{
    s.to_lowercase()
}

// ───────────────────────── building strings ─────────────────────────

/// Appends one character to a string.
///
/// Calls `String::push`, which, as its documentation says, appends the given
/// char to the end of the string.
#[verifier::external_body]
pub(crate) fn push_char(s: &mut String, c: char)
    ensures
        final(s)@ == old(s)@.push(c),
{
    s.push(c);
}

/// Appends the characters of `t` to `s`.
pub fn push_seq(s: &mut String, t: &[char])
    ensures
        final(s)@ == old(s)@ + t@,
{
    let ghost start = s@;
    let mut i: usize = 0;
    while i < t.len()
        invariant
            i <= t@.len(),
            s@ == start + t@.take(i as int),
        decreases t@.len() - i,
    {
        push_char(s, t[i]);
        assert(t@.take(i + 1) =~= t@.take(i as int).push(t@[i as int]));
        i = i + 1;
    }
    assert(t@.take(t@.len() as int) =~= t@);
}

/// Appends the characters of `t` to `s`.
pub fn push_str(s: &mut String, t: &str)
    ensures
        final(s)@ == old(s)@ + t@,
{
    let v = chars_of(t);
    push_seq(s, v.as_slice());
}

/// A new string holding the characters of `t`.
pub fn string_of(t: &[char]) -> (s: String)
    ensures
        s@ == t@,
{
    let mut s = String::new();
    push_seq(&mut s, t);
    assert(Seq::<char>::empty() + t@ =~= t@);
    s
}

/// A new string holding the characters of `t`.
pub fn owned(t: &str) -> (s: String)
    ensures
        s@ == t@,
{
    let mut s = String::new();
    push_str(&mut s, t);
    assert(Seq::<char>::empty() + t@ =~= t@);
    s
}

/// The characters of `s`, in order.
pub fn chars_of(s: &str) -> (res: Vec<char>)
    ensures
        res@ == s@,
{
    let mut res: Vec<char> = Vec::new();
    for c in it: s.chars()
        invariant
            res@ == it.seq().take(it.index() as int),
    {
        res.push(c);
    }
    res
}

/// The characters of `v` from `lo` up to `hi`.
pub fn slice_of(v: &[char], lo: usize, hi: usize) -> (res: Vec<char>)
    requires
        lo <= hi <= v@.len(),
    ensures
        res@ == v@.subrange(lo as int, hi as int),
{
    let mut res: Vec<char> = Vec::new();
    let mut i = lo;
    while i < hi
        invariant
            lo <= i <= hi <= v@.len(),
            res@ == v@.subrange(lo as int, i as int),
        decreases hi - i,
    {
        res.push(v[i]);
        assert(v@.subrange(lo as int, i + 1) =~= v@.subrange(lo as int, i as int).push(v@[i as int]));
        i = i + 1;
    }
    res
}

/// A copy of `v`.
pub fn copy_chars(v: &[char]) -> (res: Vec<char>)
    ensures
        res@ == v@,
{
    let r = slice_of(v, 0, v.len());
    assert(v@.subrange(0, v@.len() as int) =~= v@);
    r
}

/// Whether `a` and `b` hold the same characters.
pub fn seq_eq(a: &[char], b: &[char]) -> (r: bool)
    ensures
        r == (a@ == b@),
{
    if a.len() != b.len() {
        return false;
    }
    let mut i: usize = 0;
    while i < a.len()
        invariant
            a@.len() == b@.len(),
            i <= a@.len(),
            forall|j: int| 0 <= j < i ==> a@[j] == b@[j],
        decreases a@.len() - i,
    {
        if a[i] != b[i] {
            return false;
        }
        i = i + 1;
    }
    assert(a@ =~= b@);
    true
}

/// Whether `a` and the string `b` hold the same characters.
pub fn eq_str(a: &[char], b: &str) -> (r: bool)
    ensures
        r == (a@ == b@),
{
    let bv = chars_of(b);
    seq_eq(a, bv.as_slice())
}

// ───────────────────────── trimming ─────────────────────────

/// `str::trim_start`: drops the leading whitespace.
pub open spec fn trim_start(s: Seq<char>) -> Seq<char>
    decreases s.len(),
{
    if s.len() > 0 && is_ws(s[0]) {
        trim_start(s.drop_first())
    } else {
        s
    }
}

/// `str::trim_end`: drops the trailing whitespace.
pub open spec fn trim_end(s: Seq<char>) -> Seq<char>
    decreases s.len(),
{
    if s.len() > 0 && is_ws(s.last()) {
        trim_end(s.drop_last())
    } else {
        s
    }
}

/// `str::trim`: drops leading and trailing whitespace.
pub open spec fn trim(s: Seq<char>) -> Seq<char> {
    trim_end(trim_start(s))
}

/// `str::trim_start` on a character vector.
pub fn trim_start_chars(v: &[char]) -> (res: Vec<char>)
    ensures
        res@ == trim_start(v@),
{
    let n = v.len();
    let mut a: usize = 0;
    assert(v@.subrange(0, n as int) =~= v@);
    while a < n && is_whitespace(v[a])
        invariant
            a <= n == v@.len(),
            trim_start(v@) == trim_start(v@.subrange(a as int, n as int)),
        decreases n - a,
    {
        assert(v@.subrange(a as int, n as int).drop_first() =~= v@.subrange(a + 1, n as int));
        a = a + 1;
    }
    slice_of(v, a, n)
}

/// `str::trim_end` on a character vector.
pub fn trim_end_chars(v: &[char]) -> (res: Vec<char>)
    ensures
        res@ == trim_end(v@),
{
    let n = v.len();
    let mut b: usize = n;
    assert(v@.subrange(0, n as int) =~= v@);
    while b > 0 && is_whitespace(v[b - 1])
        invariant
            b <= n == v@.len(),
            trim_end(v@) == trim_end(v@.subrange(0, b as int)),
        decreases b,
    {
        assert(v@.subrange(0, b as int).drop_last() =~= v@.subrange(0, b - 1));
        b = b - 1;
    }
    slice_of(v, 0, b)
}

/// `str::trim` on a character vector.
pub fn trim_chars(v: &[char]) -> (res: Vec<char>)
    ensures
        res@ == trim(v@),
{
    let t = trim_start_chars(v);
    trim_end_chars(t.as_slice())
}

// ───────────────────────── searching ─────────────────────────

/// The first position at or after `i` where `n` occurs in `h`.
pub open spec fn find_from(h: Seq<char>, n: Seq<char>, i: int) -> Option<int>
    decreases h.len() + 1 - i,
{
    if i < 0 || i + n.len() > h.len() {
        None
    } else if h.subrange(i, i + n.len()) == n {
        Some(i)
    } else {
        find_from(h, n, i + 1)
    }
}

/// `str::find` with a string pattern, counted in characters.
pub open spec fn find(h: Seq<char>, n: Seq<char>) -> Option<int> {
    find_from(h, n, 0)
}

/// `str::contains` with a string pattern.
pub open spec fn contains(h: Seq<char>, n: Seq<char>) -> bool {
    find(h, n) is Some
}

/// `str::starts_with` with a string pattern.
pub open spec fn starts_with(h: Seq<char>, n: Seq<char>) -> bool {
    n.len() <= h.len() && h.subrange(0, n.len() as int) == n
}

/// `str::ends_with` with a string pattern.
pub open spec fn ends_with(h: Seq<char>, n: Seq<char>) -> bool {
    n.len() <= h.len() && h.subrange(h.len() - n.len(), h.len() as int) == n
}

/// Whether `n` occurs in `h` at position `i` (characters compared one by one).
pub fn matches_at(h: &[char], n: &[char], i: usize) -> (r: bool)
    requires
        i + n@.len() <= h@.len(),
    ensures
        r == (h@.subrange(i as int, i + n@.len()) == n@),
{
    let mut j: usize = 0;
    while j < n.len()
        invariant
            i + n@.len() <= h@.len(),
            h@.len() == h.len(),
            j <= n@.len(),
            forall|k: int| 0 <= k < j ==> h@[i + k] == n@[k],
        decreases n@.len() - j,
    {
        if h[i + j] != n[j] {
            assert(h@.subrange(i as int, i + n@.len())[j as int] != n@[j as int]);
            return false;
        }
        j = j + 1;
    }
    assert(h@.subrange(i as int, i + n@.len()) =~= n@);
    true
}

/// A found position leaves room for the pattern.
pub proof fn lemma_find_from_bounds(h: Seq<char>, n: Seq<char>, i: int)
    ensures
        find_from(h, n, i) matches Some(k) ==> i <= k && k + n.len() <= h.len() && h.subrange(
            k,
            k + n.len(),
        ) == n,
    decreases h.len() + 1 - i,
{
    if i < 0 || i + n.len() > h.len() {
    } else if h.subrange(i, i + n.len()) == n {
    } else {
        lemma_find_from_bounds(h, n, i + 1);
    }
}

/// A found position leaves room for the pattern.
pub proof fn lemma_find_bounds(h: Seq<char>, n: Seq<char>)
    ensures
        find(h, n) matches Some(k) ==> 0 <= k && k + n.len() <= h.len() && h.subrange(k, k + n.len())
            == n,
{
    lemma_find_from_bounds(h, n, 0);
}

/// `str::find`: the first character position where `n` occurs in `h`.
pub fn find_chars(h: &[char], n: &[char]) -> (r: Option<usize>)
    ensures
        r matches Some(i) ==> find(h@, n@) == Some(i as int),
        r is None ==> find(h@, n@) is None,
{
    if n.len() > h.len() {
        return None;
    }
    let last = h.len() - n.len();
    let mut i: usize = 0;
    loop
        invariant
            i <= last,
            last + n@.len() == h@.len(),
            find(h@, n@) == find_from(h@, n@, i as int),
        decreases last - i,
    {
        if matches_at(h, n, i) {
            return Some(i);
        }
        if i == last {
            assert(find_from(h@, n@, i + 1) is None);
            return None;
        }
        i = i + 1;
    }
}

/// `str::find` of a string pattern in a character vector.
pub fn find_str(h: &[char], n: &str) -> (r: Option<usize>)
    ensures
        r matches Some(i) ==> find(h@, n@) == Some(i as int),
        r is None ==> find(h@, n@) is None,
{
    let nv = chars_of(n);
    find_chars(h, nv.as_slice())
}

/// `str::contains` of a string pattern in a character vector.
pub fn contains_str(h: &[char], n: &str) -> (r: bool)
    ensures
        r == contains(h@, n@),
{
    find_str(h, n).is_some()
}

/// `str::starts_with` of a string pattern.
pub fn starts_with_str(h: &[char], n: &str) -> (r: bool)
    ensures
        r == starts_with(h@, n@),
{
    let nv = chars_of(n);
    if nv.len() > h.len() {
        return false;
    }
    matches_at(h, nv.as_slice(), 0)
}

/// `str::ends_with` of a string pattern.
pub fn ends_with_str(h: &[char], n: &str) -> (r: bool)
    ensures
        r == ends_with(h@, n@),
{
    let nv = chars_of(n);
    if nv.len() > h.len() {
        return false;
    }
    matches_at(h, nv.as_slice(), h.len() - nv.len())
}


// ───────────────────────── lines and words ─────────────────────────

/// The views of a sequence of character vectors.
pub open spec fn views(v: Seq<Vec<char>>) -> Seq<Seq<char>> {
    v.map_values(|x: Vec<char>| x@)
}

/// Drops one trailing `'\r'`.
pub open spec fn strip_cr(l: Seq<char>) -> Seq<char> {
    if l.len() > 0 && l.last() == '\r' {
        l.drop_last()
    } else {
        l
    }
}

/// Reading `s` from the left: the lines finished so far and the line being
/// read. A `'\n'` ends a line, and a `'\r'` right before it is dropped.
pub open spec fn line_scan(s: Seq<char>) -> (Seq<Seq<char>>, Seq<char>)
    decreases s.len(),
{
    if s.len() == 0 {
        (Seq::empty(), Seq::empty())
    } else {
        let (done, cur) = line_scan(s.drop_last());
        if s.last() == '\n' {
            (done.push(strip_cr(cur)), Seq::empty())
        } else {
            (done, cur.push(s.last()))
        }
    }
}

/// `str::lines`: the text split at `"\n"` or `"\r\n"`; the final line ending
/// is optional, and an empty text has no lines.
pub open spec fn lines(s: Seq<char>) -> Seq<Seq<char>> {
    let (done, cur) = line_scan(s);
    if cur.len() == 0 {
        done
    } else {
        done.push(cur)
    }
}

/// Which characters separate words.
pub enum Separator {
    /// `char::is_whitespace`, as in `str::split_whitespace`.
    Whitespace,
    /// Every character but an ASCII letter.
    NonAsciiLetter,
    /// Every character but an ASCII digit.
    NonAsciiDigit,
}

pub open spec fn separates(sep: Separator, c: char) -> bool {
    match sep {
        Separator::Whitespace => is_ws(c),
        Separator::NonAsciiLetter => !is_alpha(c),
        Separator::NonAsciiDigit => !is_digit(c),
    }
}

/// Reading `s` from the left: the words finished so far and the word being
/// read.
pub open spec fn word_scan(s: Seq<char>, sep: Separator) -> (Seq<Seq<char>>, Seq<char>)
    decreases s.len(),
{
    if s.len() == 0 {
        (Seq::empty(), Seq::empty())
    } else {
        let (done, cur) = word_scan(s.drop_last(), sep);
        if separates(sep, s.last()) {
            if cur.len() == 0 {
                (done, cur)
            } else {
                (done.push(cur), Seq::empty())
            }
        } else {
            (done, cur.push(s.last()))
        }
    }
}

/// The maximal non-empty runs of non-separator characters of `s`, in order
/// (`str::split_whitespace` for `Separator::Whitespace`).
pub open spec fn words(s: Seq<char>, sep: Separator) -> Seq<Seq<char>> {
    let (done, cur) = word_scan(s, sep);
    if cur.len() == 0 {
        done
    } else {
        done.push(cur)
    }
}

/// `str::lines`.
pub fn lines_of(s: &str) -> (res: Vec<Vec<char>>)
    ensures
        views(res@) == lines(s@),
{
    let v = chars_of(s);
    let mut done: Vec<Vec<char>> = Vec::new();
    let mut cur: Vec<char> = Vec::new();
    let mut i: usize = 0;
    assert(v@.take(0) =~= Seq::<char>::empty());
    while i < v.len()
        invariant
            i <= v@.len(),
            (views(done@), cur@) == line_scan(v@.take(i as int)),
        decreases v@.len() - i,
    {
        let c = v[i];
        assert(v@.take(i + 1).drop_last() =~= v@.take(i as int));
        if c == '\n' {
            if cur.len() > 0 && cur[cur.len() - 1] == '\r' {
                cur.pop();
            }
            let line = cur;
            done.push(line);
            cur = Vec::new();
            assert(views(done@) =~= line_scan(v@.take(i as int)).0.push(line@));
        } else {
            cur.push(c);
        }
        i = i + 1;
    }
    assert(v@.take(v@.len() as int) =~= v@);
    if cur.len() > 0 {
        let line = cur;
        done.push(line);
        assert(views(done@) =~= line_scan(v@).0.push(line@));
    }
    done
}

/// The words of `v` for the given separator (`str::split_whitespace` for
/// `Separator::Whitespace`).
pub fn words_of(v: &[char], sep: Separator) -> (res: Vec<Vec<char>>)
    ensures
        views(res@) == words(v@, sep),
{
    let mut done: Vec<Vec<char>> = Vec::new();
    let mut cur: Vec<char> = Vec::new();
    let mut i: usize = 0;
    assert(v@.take(0) =~= Seq::<char>::empty());
    while i < v.len()
        invariant
            i <= v@.len(),
            (views(done@), cur@) == word_scan(v@.take(i as int), sep),
        decreases v@.len() - i,
    {
        let c = v[i];
        assert(v@.take(i + 1).drop_last() =~= v@.take(i as int));
        let is_sep = match sep {
            Separator::Whitespace => is_whitespace(c),
            Separator::NonAsciiLetter => !is_ascii_alphabetic(c),
            Separator::NonAsciiDigit => !is_ascii_digit(c),
        };
        if is_sep {
            if cur.len() > 0 {
                let w = cur;
                done.push(w);
                cur = Vec::new();
                assert(views(done@) =~= word_scan(v@.take(i as int), sep).0.push(w@));
            }
        } else {
            cur.push(c);
        }
        i = i + 1;
    }
    assert(v@.take(v@.len() as int) =~= v@);
    if cur.len() > 0 {
        let w = cur;
        done.push(w);
        assert(views(done@) =~= word_scan(v@, sep).0.push(w@));
    }
    done
}


// ───────────────────────── more string operations ─────────────────────────

/// The index of the last occurrence of `c` in `s`, or -1.
pub open spec fn last_index_of(s: Seq<char>, c: char) -> int
    decreases s.len(),
{
    if s.len() == 0 {
        -1
    } else if s.last() == c {
        s.len() - 1
    } else {
        last_index_of(s.drop_last(), c)
    }
}

/// The part of `s` after its last `c` (all of `s` when there is none), as the
/// first item of `str::rsplit(c)`.
pub open spec fn after_last(s: Seq<char>, c: char) -> Seq<char> {
    s.subrange(last_index_of(s, c) + 1, s.len() as int)
}

/// `str::replace` of one character by another.
pub open spec fn replace_char(s: Seq<char>, from: char, to: char) -> Seq<char> {
    s.map_values(|x: char| if x == from { to } else { x })
}

/// `slice::join`: the parts with `sep` between consecutive ones.
pub open spec fn join(parts: Seq<Seq<char>>, sep: Seq<char>) -> Seq<char>
    decreases parts.len(),
{
    if parts.len() == 0 {
        Seq::empty()
    } else if parts.len() == 1 {
        parts[0]
    } else {
        join(parts.drop_last(), sep) + sep + parts.last()
    }
}

/// `str::strip_prefix` with a string pattern.
pub open spec fn strip_prefix(s: Seq<char>, p: Seq<char>) -> Option<Seq<char>> {
    if starts_with(s, p) {
        Some(s.subrange(p.len() as int, s.len() as int))
    } else {
        None
    }
}

/// The index of the last occurrence of `c` in `v`, if any.
pub fn rfind_char(v: &[char], c: char) -> (r: Option<usize>)
    ensures
        r matches Some(i) ==> last_index_of(v@, c) == i && i < v.len(),
        r is None ==> last_index_of(v@, c) == -1,
{
    let mut i: usize = v.len();
    assert(v@.take(i as int) =~= v@);
    while i > 0
        invariant
            i <= v@.len(),
            last_index_of(v@, c) == last_index_of(v@.take(i as int), c),
        decreases i,
    {
        if v[i - 1] == c {
            return Some(i - 1);
        }
        assert(v@.take(i as int).drop_last() =~= v@.take(i - 1));
        i = i - 1;
    }
    None
}

/// The part of `v` after its last `c` (all of `v` when there is none).
pub fn after_last_char(v: &[char], c: char) -> (res: Vec<char>)
    ensures
        res@ == after_last(v@, c),
{
    match rfind_char(v, c) {
        Some(i) => slice_of(v, i + 1, v.len()),
        None => slice_of(v, 0, v.len()),
    }
}

/// `str::replace` of one character by another.
pub fn replace_chars(v: &[char], from: char, to: char) -> (res: Vec<char>)
    ensures
        res@ == replace_char(v@, from, to),
{
    let mut res: Vec<char> = Vec::new();
    let mut i: usize = 0;
    while i < v.len()
        invariant
            i <= v@.len(),
            res@ =~= replace_char(v@.take(i as int), from, to),
        decreases v@.len() - i,
    {
        if v[i] == from {
            res.push(to);
        } else {
            res.push(v[i]);
        }
        i = i + 1;
    }
    assert(v@.take(v@.len() as int) =~= v@);
    res
}

/// `slice::join` of character vectors with a string separator.
pub fn join_chars(parts: &[Vec<char>], sep: &str) -> (res: Vec<char>)
    ensures
        res@ == join(views(parts@), sep@),
{
    let sepv = chars_of(sep);
    let mut res: Vec<char> = Vec::new();
    let mut i: usize = 0;
    assert(views(parts@.take(0)) =~= Seq::<Seq<char>>::empty());
    while i < parts.len()
        invariant
            i <= parts@.len(),
            sepv@ == sep@,
            res@ == join(views(parts@.take(i as int)), sep@),
        decreases parts@.len() - i,
    {
        let ghost before = res@;
        let p = &parts[i];
        if i > 0 {
            res.extend_from_slice(sepv.as_slice());
        }
        res.extend_from_slice(p.as_slice());
        assert(views(parts@.take(i + 1)).drop_last() =~= views(parts@.take(i as int)));
        assert(views(parts@.take(i + 1)).last() == p@);
        if i == 0 {
            assert(res@ =~= p@);
        } else {
            assert(res@ =~= before + sep@ + p@);
        }
        i = i + 1;
    }
    assert(parts@.take(parts@.len() as int) =~= parts@);
    res
}

/// `str::strip_prefix` with a string pattern.
pub fn strip_prefix_str(v: &[char], p: &str) -> (r: Option<Vec<char>>)
    ensures
        r matches Some(x) ==> strip_prefix(v@, p@) == Some(x@),
        r is None ==> strip_prefix(v@, p@) is None,
{
    let pv = chars_of(p);
    if starts_with_str(v, p) {
        Some(slice_of(v, pv.len(), v.len()))
    } else {
        None
    }
}


/// The first index at or after `i` whose character is whitespace
/// (`s.len()` when there is none).
pub open spec fn ws_from(s: Seq<char>, i: int) -> int
    decreases s.len() - i,
{
    if i < 0 || i >= s.len() {
        s.len() as int
    } else if is_ws(s[i]) {
        i
    } else {
        ws_from(s, i + 1)
    }
}

/// The first whitespace position of `v`, if any.
pub fn find_whitespace(v: &[char]) -> (r: Option<usize>)
    ensures
        r matches Some(i) ==> ws_from(v@, 0) == i && i < v.len(),
        r is None ==> ws_from(v@, 0) == v@.len(),
{
    let mut i: usize = 0;
    while i < v.len()
        invariant
            i <= v@.len(),
            ws_from(v@, 0) == ws_from(v@, i as int),
        decreases v@.len() - i,
    {
        if is_whitespace(v[i]) {
            return Some(i);
        }
        i = i + 1;
    }
    None
}

/// Whether every character of `s` is an ASCII digit.
pub open spec fn all_digits(s: Seq<char>) -> bool {
    forall|k: int| 0 <= k < s.len() ==> is_digit(#[trigger] s[k])
}

/// Whether every character of `v[lo..hi]` is an ASCII digit.
pub fn all_ascii_digits(v: &[char], lo: usize, hi: usize) -> (r: bool)
    requires
        lo <= hi <= v@.len(),
    ensures
        r == all_digits(v@.subrange(lo as int, hi as int)),
{
    let mut i = lo;
    while i < hi
        invariant
            lo <= i <= hi <= v@.len(),
            forall|k: int| lo <= k < i ==> is_digit(v@[k]),
        decreases hi - i,
    {
        if !is_ascii_digit(v[i]) {
            assert(v@.subrange(lo as int, hi as int)[i - lo] == v@[i as int]);
            return false;
        }
        i = i + 1;
    }
    assert forall|k: int| 0 <= k < hi - lo implies is_digit(
        #[trigger] v@.subrange(lo as int, hi as int)[k],
    ) by {
        assert(v@.subrange(lo as int, hi as int)[k] == v@[lo + k]);
    }
    true
}

/// The value of a string of decimal digits.
pub open spec fn digits_value(s: Seq<char>) -> int
    decreases s.len(),
{
    if s.len() == 0 {
        0
    } else {
        10 * digits_value(s.drop_last()) + (s.last() as u32 - '0' as u32)
    }
}

/// A prefix of digits is worth no more than the whole.
pub proof fn lemma_digits_value_prefix(s: Seq<char>, k: int)
    requires
        0 <= k <= s.len(),
        all_digits(s),
    ensures
        digits_value(s.take(k)) <= digits_value(s),
    decreases s.len() - k,
{
    if k < s.len() {
        lemma_digits_value_prefix(s, k + 1);
        assert(s.take(k + 1).drop_last() =~= s.take(k));
        assert(s.take(k + 1).last() == s[k]);
        assert(is_digit(s[k]));
        assert(digits_value(s.take(k)) >= 0) by {
            lemma_digits_value_nonneg(s.take(k));
        }
    } else {
        assert(s.take(k) =~= s);
    }
}

/// The value of digits is never negative.
pub proof fn lemma_digits_value_nonneg(s: Seq<char>)
    requires
        all_digits(s),
    ensures
        digits_value(s) >= 0,
    decreases s.len(),
{
    if s.len() > 0 {
        assert(all_digits(s.drop_last())) by {
            assert forall|k: int| 0 <= k < s.drop_last().len() implies is_digit(
                #[trigger] s.drop_last()[k],
            ) by {
                assert(s.drop_last()[k] == s[k]);
            }
        }
        lemma_digits_value_nonneg(s.drop_last());
        assert(is_digit(s[s.len() - 1]));
    }
}

/// Unsigned `from_str` for a type whose largest value is `max`: an
/// optional `+`, then one or more ASCII digits whose value is at most `max`.
pub open spec fn parse_uint(s: Seq<char>, max: int) -> Option<int> {
    let d = if s.len() > 0 && s[0] == '+' {
        s.drop_first()
    } else {
        s
    };
    if d.len() == 0 || !all_digits(d) || digits_value(d) > max {
        None
    } else {
        Some(digits_value(d))
    }
}

/// `u32::from_str`.
pub open spec fn parse_u32(s: Seq<char>) -> Option<u32> {
    match parse_uint(s, u32::MAX as int) {
        Some(v) => Some(v as u32),
        None => None,
    }
}

/// `usize::from_str`.
pub open spec fn parse_usize(s: Seq<char>) -> Option<usize> {
    match parse_uint(s, usize::MAX as int) {
        Some(v) => Some(v as usize),
        None => None,
    }
}

/// Unsigned `from_str` with the largest value `max`, on a character vector.
pub fn parse_uint_chars(s: &[char], max: u64) -> (r: Option<u64>)
    requires
        max >= 9,
    ensures
        r matches Some(v) ==> parse_uint(s@, max as int) == Some(v as int),
        r is None ==> parse_uint(s@, max as int) is None,
{
    let start: usize = if s.len() > 0 && s[0] == '+' {
        1
    } else {
        0
    };
    let ghost d = if s@.len() > 0 && s@[0] == '+' {
        s@.drop_first()
    } else {
        s@
    };
    assert(d =~= s@.subrange(start as int, s@.len() as int));
    if start == s.len() {
        return None;
    }
    if !all_ascii_digits(s, start, s.len()) {
        return None;
    }
    let mut acc: u64 = 0;
    let mut i = start;
    assert(d.take(0) =~= Seq::<char>::empty());
    while i < s.len()
        invariant
            start <= i <= s@.len(),
            d =~= s@.subrange(start as int, s@.len() as int),
            d == (if s@.len() > 0 && s@[0] == '+' {
                s@.drop_first()
            } else {
                s@
            }),
            d.len() > 0,
            all_digits(d),
            acc == digits_value(d.take(i - start)),
            acc <= max,
            max >= 9,
        decreases s@.len() - i,
    {
        let c = s[i];
        assert(d[i - start] == c);
        assert(is_digit(d[i - start]));
        let digit: u64 = (c as u32 - '0' as u32) as u64;
        assert(digit <= 9);
        assert(d.take(i - start + 1).drop_last() =~= d.take(i - start));
        if acc > (max - digit) / 10 {
            proof {
                assert(acc * 10 + digit > max) by (nonlinear_arith)
                    requires
                        acc > (max - digit) / 10,
                        digit <= 9,
                        digit <= max,
                ;
                assert(digits_value(d.take(i - start + 1)) == acc * 10 + digit);
                lemma_digits_value_prefix(d, i - start + 1);
            }
            return None;
        }
        proof {
            assert(acc * 10 + digit <= max) by (nonlinear_arith)
                requires
                    acc <= (max - digit) / 10,
                    digit <= max,
            ;
        }
        acc = acc * 10 + digit;
        assert(acc == digits_value(d.take(i - start + 1)));
        i = i + 1;
    }
    assert(d.take(i - start) =~= d);
    Some(acc)
}

/// `u32::from_str` on a character vector.
pub fn parse_u32_chars(s: &[char]) -> (r: Option<u32>)
    ensures
        r == parse_u32(s@),
{
    match parse_uint_chars(s, u32::MAX as u64) {
        Some(v) => Some(v as u32),
        None => None,
    }
}

/// `usize::from_str` on a character vector.
pub fn parse_usize_chars(s: &[char]) -> (r: Option<usize>)
    ensures
        r == parse_usize(s@),
{
    match parse_uint_chars(s, usize::MAX as u64) {
        Some(v) => Some(v as usize),
        None => None,
    }
}


// ───────────────────────── numbers ─────────────────────────

/// The ASCII digit of a value below 10.
pub open spec fn digit_char(d: nat) -> char {
    (('0' as u32) + d) as char
}

/// The decimal form of `n`, as `Display` writes an unsigned integer.
pub open spec fn decimal(n: nat) -> Seq<char>
    decreases n,
{
    if n < 10 {
        seq![digit_char(n)]
    } else {
        decimal(n / 10).push(digit_char(n % 10))
    }
}

/// Appends the decimal form of `n`.
pub fn push_u64(s: &mut String, n: u64)
    ensures
        final(s)@ == old(s)@ + decimal(n as nat),
    decreases n,
{
    if n >= 10 {
        push_u64(s, n / 10);
    }
    let d: u32 = (n % 10) as u32;
    let c = char_from_u32_below_surrogates(('0' as u32) + d);
    push_char(s, c);
    assert(s@ =~= old(s)@ + decimal(n as nat));
}

/// Appends the decimal form of `n`.
pub fn push_usize(s: &mut String, n: usize)
    ensures
        final(s)@ == old(s)@ + decimal(n as nat),
{
    push_u64(s, n as u64);
}

// ───────────────────────── ordering ─────────────────────────

/// Strict lexicographic order of strings (as `<` on `str`: UTF-8 byte order,
/// which is code point order).
pub open spec fn lex_lt(a: Seq<char>, b: Seq<char>) -> bool
    decreases a.len(),
{
    if a.len() == 0 {
        b.len() > 0
    } else if b.len() == 0 {
        false
    } else if a[0] != b[0] {
        (a[0] as u32) < (b[0] as u32)
    } else {
        lex_lt(a.drop_first(), b.drop_first())
    }
}

/// `a < b` on strings.
pub fn str_lt(a: &str, b: &str) -> (r: bool)
    ensures
        r == lex_lt(a@, b@),
{
    let av = chars_of(a);
    let bv = chars_of(b);
    let mut i: usize = 0;
    assert(av@.skip(0) =~= av@);
    assert(bv@.skip(0) =~= bv@);
    loop
        invariant
            i <= av@.len(),
            i <= bv@.len(),
            lex_lt(a@, b@) == lex_lt(av@.skip(i as int), bv@.skip(i as int)),
            av@ == a@,
            bv@ == b@,
        decreases av@.len() - i,
    {
        if i == av.len() {
            return i < bv.len();
        }
        if i == bv.len() {
            return false;
        }
        if av[i] != bv[i] {
            return (av[i] as u32) < (bv[i] as u32);
        }
        assert(av@.skip(i as int).drop_first() =~= av@.skip(i + 1));
        assert(bv@.skip(i as int).drop_first() =~= bv@.skip(i + 1));
        i = i + 1;
    }
}

// ───────────────────────── paths ─────────────────────────

/// A path joined with a relative name, as `Path::join` does on Unix.
pub open spec fn join_path(base: Seq<char>, name: Seq<char>) -> Seq<char> {
    if base.len() == 0 {
        name
    } else if base.last() == '/' {
        base + name
    } else {
        base + "/"@ + name
    }
}

/// A path joined with a relative name, as `Path::join` does on Unix.
pub fn join_path_str(base: &str, name: &str) -> (r: String)
    ensures
        r@ == join_path(base@, name@),
{
    let b = chars_of(base);
    let mut r = owned(base);
    if b.len() > 0 && b[b.len() - 1] != '/' {
        push_str(&mut r, "/");
    }
    push_str(&mut r, name);
    if b.len() == 0 {
        assert(r@ =~= name@);
    }
    r
}

} // verus!
