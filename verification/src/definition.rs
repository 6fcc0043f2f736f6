//! Go-to-definition without a language server: the first line of the
//! file that declares the word under the cursor, found with the regex crate.
use crate::text::{lines, lines_of, owned, push_str, string_of};
use vstd::prelude::*;

verus! {

#[verifier::external_type_specification]
#[verifier::external_body]
pub struct ExRegex(regex::Regex);

/// A compiled regex together with the pattern it was compiled from.
pub struct CompiledPattern {
    re: regex::Regex,
    source: Ghost<Seq<char>>,
}

impl CompiledPattern {
    /// The pattern this regex was compiled from.
    pub closed spec fn pattern(&self) -> Seq<char> {
        self.source@
    }
}

/// The name of whether `regex::Regex::new` accepts a pattern (it is
/// well-formed and within the default size limit).
pub uninterp spec fn regex_compiles(pattern: Seq<char>) -> bool;

/// The name of `regex::Regex::is_match` for the regex compiled from a
/// pattern, on a haystack.
pub uninterp spec fn regex_match(pattern: Seq<char>, haystack: Seq<char>) -> bool;

/// `regex::Regex::new`: the compiled pattern exactly when the pattern is
/// accepted. The result depends on the pattern alone.
#[verifier::external_body]
fn regex_new(pattern: &str) -> (r: Option<CompiledPattern>)
    ensures
        r is Some <==> regex_compiles(pattern@),
        r matches Some(c) ==> c.pattern() == pattern@,
{
    match regex::Regex::new(pattern) {
        Ok(re) => Some(CompiledPattern { re, source: Ghost(pattern@) }),
        Err(_) => None,
    }
}

/// `regex::Regex::is_match`: whether the regex matches anywhere in the
/// haystack; a function of the pattern and the haystack.
#[verifier::external_body]
fn regex_is_match(c: &CompiledPattern, haystack: &str) -> (r: bool)
    ensures
        r == regex_match(c.pattern(), haystack@),
{
    c.re.is_match(haystack)
}

/// The declaration patterns tried for a word, in order, as the text before
/// and after the word: `fn`, `pub fn`, `struct`, `pub struct`, `enum`,
/// `pub enum`, `trait`, `pub trait`, `type`, `const`, `static`, `impl`, and
/// `impl .. for`.
pub open spec fn pattern_parts(k: int) -> (Seq<char>, Seq<char>) {
    if k == 0 { ("fn\\s+"@, "\\s*\\("@) } else
    if k == 1 { ("pub\\s+fn\\s+"@, "\\s*\\("@) } else
    if k == 2 { ("struct\\s+"@, "\\s*[{<]"@) } else
    if k == 3 { ("pub\\s+struct\\s+"@, "\\s*[{<]"@) } else
    if k == 4 { ("enum\\s+"@, "\\s*[{<]"@) } else
    if k == 5 { ("pub\\s+enum\\s+"@, "\\s*[{<]"@) } else
    if k == 6 { ("trait\\s+"@, "\\s*[{<]"@) } else
    if k == 7 { ("pub\\s+trait\\s+"@, "\\s*[{<]"@) } else
    if k == 8 { ("type\\s+"@, "\\s*="@) } else
    if k == 9 { ("const\\s+"@, "\\s*:"@) } else
    if k == 10 { ("static\\s+"@, "\\s*:"@) } else
    if k == 11 { ("impl\\s+"@, "\\s*[{<]"@) } else
    if k == 12 { ("impl.*for\\s+"@, "\\s*[{<]"@) } else {
        (Seq::empty(), Seq::empty())
    }
}

/// The `k`-th declaration pattern for a word.
pub open spec fn def_pattern(word: Seq<char>, k: int) -> Seq<char> {
    pattern_parts(k).0 + word + pattern_parts(k).1
}

/// Whether a line declares the word: one of the patterns compiles and
/// matches it.
pub open spec fn declares(line: Seq<char>, word: Seq<char>) -> bool {
    exists|k: int| 0 <= k < 13 && regex_compiles(def_pattern(word, k)) && #[trigger] regex_match(def_pattern(word, k), line)
}

fn pattern_parts_of(k: usize) -> (r: (&'static str, &'static str))
    requires
        k < 13,
    ensures
        (r.0@, r.1@) == pattern_parts(k as int),
{
    match k {
        0 => ("fn\\s+", "\\s*\\("),
        1 => ("pub\\s+fn\\s+", "\\s*\\("),
        2 => ("struct\\s+", "\\s*[{<]"),
        3 => ("pub\\s+struct\\s+", "\\s*[{<]"),
        4 => ("enum\\s+", "\\s*[{<]"),
        5 => ("pub\\s+enum\\s+", "\\s*[{<]"),
        6 => ("trait\\s+", "\\s*[{<]"),
        7 => ("pub\\s+trait\\s+", "\\s*[{<]"),
        8 => ("type\\s+", "\\s*="),
        9 => ("const\\s+", "\\s*:"),
        10 => ("static\\s+", "\\s*:"),
        11 => ("impl\\s+", "\\s*[{<]"),
        12 => ("impl.*for\\s+", "\\s*[{<]"),
        _ => ("", ""),
    }
}

fn def_pattern_of(word: &str, k: usize) -> (r: String)
    requires
        k < 13,
    ensures
        r@ == def_pattern(word@, k as int),
{
    let (pre, post) = pattern_parts_of(k);
    let mut p = owned(pre);
    push_str(&mut p, word);
    push_str(&mut p, post);
    p
}

/// Whether one line declares the word.
pub fn line_declares(line: &str, word: &str) -> (r: bool)
    ensures
        r == declares(line@, word@),
{
    let mut k: usize = 0;
    while k < 13
        invariant
            k <= 13,
            forall|j: int|
                0 <= j < k ==> !(regex_compiles(def_pattern(word@, j)) && #[trigger] regex_match(
                    def_pattern(word@, j),
                    line@,
                )),
        decreases 13 - k,
    {
        let p = def_pattern_of(word, k);
        match regex_new(p.as_str()) {
            Some(c) => {
                if regex_is_match(&c, line) {
                    return true;
                }
            },
            None => {},
        }
        k = k + 1;
    }
    false
}

/// The first line of the text that declares the word (a function, struct,
/// enum, trait, type alias, constant, static or impl of that name).
pub fn fallback_definition_line(text: &str, word: &str) -> (r: Option<usize>)
    ensures
        r matches Some(i) ==> i < lines(text@).len() && declares(lines(text@)[i as int], word@)
            && forall|j: int| 0 <= j < i ==> !declares(#[trigger] lines(text@)[j], word@),
        r is None ==> forall|j: int|
            0 <= j < lines(text@).len() ==> !declares(#[trigger] lines(text@)[j], word@),
{
    let ls = lines_of(text);
    let mut i: usize = 0;
    while i < ls.len()
        invariant
            i <= ls@.len(),
            crate::text::views(ls@) == lines(text@),
            forall|j: int| 0 <= j < i ==> !declares(#[trigger] lines(text@)[j], word@),
        decreases ls@.len() - i,
    {
        let line = string_of(ls[i].as_slice());
        assert(lines(text@)[i as int] == ls@[i as int]@);
        if line_declares(line.as_str(), word) {
            return Some(i);
        }
        i = i + 1;
    }
    None
}

} // verus!
