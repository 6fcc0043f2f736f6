//! The minimap beside the editor: how many rows the text takes and what
//! each line is drawn as (its indent, its length, and whether it is a
//! comment, a declaration or other code). Drawing is left to the caller.
use crate::text::{
    chars_of, contains, contains_str, is_ws, is_whitespace, lines, lines_of, starts_with,
    starts_with_str, string_of, trim, trim_chars, trim_start, trim_start_chars,
};
use vstd::prelude::*;
use vstd::utf8::encode_utf8;

verus! {

/// How a minimap line is tinted.
#[derive(Debug, Clone, Copy, PartialEq, Eq, Structural)]
pub enum MinimapKind {
    /// A `//` comment.
    Comment,
    /// A line with `fn `, `pub ` or `struct `.
    Declaration,
    Code,
}

/// The leading whitespace characters of a line.
pub open spec fn indent_of(s: Seq<char>) -> nat
    decreases s.len(),
{
    if s.len() > 0 && is_ws(s[0]) {
        1 + indent_of(s.drop_first())
    } else {
        0
    }
}

/// What a minimap line is drawn as: nothing for a blank line; otherwise its
/// indent in characters, its trimmed length in bytes (at most 50), and its
/// kind.
pub open spec fn minimap_spec(line: Seq<char>) -> Option<(nat, nat, MinimapKind)> {
    let n = encode_utf8(trim(line)).len();
    let content = if n < 50 {
        n
    } else {
        50
    };
    if content == 0 {
        None
    } else {
        Some(
            (
                indent_of(line),
                content,
                if starts_with(trim_start(line), "//"@) {
                    MinimapKind::Comment
                } else if contains(line, "fn "@) || contains(line, "pub "@) || contains(
                    line,
                    "struct "@,
                ) {
                    MinimapKind::Declaration
                } else {
                    MinimapKind::Code
                },
            ),
        )
    }
}

/// What one line of the text is drawn as in the minimap.
pub fn minimap_line(line: &str) -> (r: Option<(usize, usize, MinimapKind)>)
    ensures
        r matches Some((a, b, k)) ==> minimap_spec(line@) == Some((a as nat, b as nat, k)),
        r is None ==> minimap_spec(line@) is None,
{
    let v = chars_of(line);
    let mut indent: usize = 0;
    assert(v@.skip(0) =~= v@);
    while indent < v.len() && is_whitespace(v[indent])
        invariant
            indent <= v@.len(),
            v@ == line@,
            indent_of(line@) == indent + indent_of(v@.skip(indent as int)),
        decreases v@.len() - indent,
    {
        assert(v@.skip(indent as int).drop_first() =~= v@.skip(indent + 1));
        indent = indent + 1;
    }
    assert(indent_of(v@.skip(indent as int)) == 0);
    let t = trim_chars(v.as_slice());
    let ts = string_of(t.as_slice());
    let n = ts.as_str().as_bytes().len();
    assert(n == encode_utf8(trim(line@)).len());
    let content = if n < 50 {
        n
    } else {
        50
    };
    if content == 0 {
        return None;
    }
    let start = trim_start_chars(v.as_slice());
    let kind = if starts_with_str(start.as_slice(), "//") {
        MinimapKind::Comment
    } else if contains_str(v.as_slice(), "fn ") || contains_str(v.as_slice(), "pub ")
        || contains_str(v.as_slice(), "struct ") {
        MinimapKind::Declaration
    } else {
        MinimapKind::Code
    };
    Some((indent, content, kind))
}

/// How many rows the minimap divides its height into: the text's lines,
/// at least one.
pub fn minimap_rows(text: &str) -> (r: usize)
    ensures
        r == (if lines(text@).len() > 1 {
            lines(text@).len()
        } else {
            1
        }),
{
    let ls = lines_of(text);
    if ls.len() > 1 {
        ls.len()
    } else {
        1
    }
}

} // verus!
