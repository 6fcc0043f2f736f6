//! How the editor reads and shows what the language server answers: the
//! names of completion kinds, the severities and rows of diagnostics, the
//! text of a hover, the labels of definition and reference lists, and where
//! a jump to a location lands.
use vstd::prelude::*;
use vstd::utf8::{decode_utf8, encode_utf8, is_char_boundary};
use crate::text::{
    after_last, after_last_char, chars_of, contains_str, decimal, join, owned, push_seq, push_str,
    push_u64, seq_eq, string_of, views,
};
use crate::ui_colors::Rgb;

verus! {

// ───────────────────────── completions ─────────────────────────

/// The name the editor gives to an LSP `CompletionItemKind` number (the
/// protocol numbers them from 1, `Text`, to 25, `TypeParameter`).
pub open spec fn completion_kind_spec(kind: Option<u32>) -> Seq<char> {
    match kind {
        Some(1) => "text"@,
        Some(2) => "method"@,
        Some(3) => "function"@,
        Some(4) => "constructor"@,
        Some(5) => "field"@,
        Some(6) => "variable"@,
        Some(7) => "class"@,
        Some(8) => "interface"@,
        Some(9) => "module"@,
        Some(10) => "property"@,
        Some(11) => "unit"@,
        Some(12) => "value"@,
        Some(13) => "enum"@,
        Some(14) => "keyword"@,
        Some(15) => "snippet"@,
        Some(16) => "color"@,
        Some(17) => "file"@,
        Some(18) => "reference"@,
        Some(19) => "folder"@,
        Some(20) => "enum_member"@,
        Some(21) => "constant"@,
        Some(22) => "struct"@,
        Some(23) => "event"@,
        Some(24) => "operator"@,
        Some(25) => "type_parameter"@,
        _ => "unknown"@,
    }
}

/// The name of a completion's kind; `unknown` when the server gave none or
/// one outside the protocol's list.
pub fn completion_kind_name(kind: Option<u32>) -> (r: &'static str)
    ensures
        r@ == completion_kind_spec(kind),
{
    match kind {
        Some(1) => "text",
        Some(2) => "method",
        Some(3) => "function",
        Some(4) => "constructor",
        Some(5) => "field",
        Some(6) => "variable",
        Some(7) => "class",
        Some(8) => "interface",
        Some(9) => "module",
        Some(10) => "property",
        Some(11) => "unit",
        Some(12) => "value",
        Some(13) => "enum",
        Some(14) => "keyword",
        Some(15) => "snippet",
        Some(16) => "color",
        Some(17) => "file",
        Some(18) => "reference",
        Some(19) => "folder",
        Some(20) => "enum_member",
        Some(21) => "constant",
        Some(22) => "struct",
        Some(23) => "event",
        Some(24) => "operator",
        Some(25) => "type_parameter",
        _ => "unknown",
    }
}

/// Whether a completion's insert text is a snippet: its LSP
/// `InsertTextFormat` is 2 (`Snippet`; 1 is plain text).
pub fn is_snippet_format(format: Option<u32>) -> (r: bool)
    ensures
        r == (format == Some(2u32)),
{
    match format {
        Some(f) => f == 2,
        None => false,
    }
}

// ───────────────────────── diagnostics ─────────────────────────

#[derive(Debug, Clone, Copy, PartialEq, Eq, Structural)]
pub enum DiagnosticSeverity {
    Error,
    Warning,
    Information,
    Hint,
}

/// The severity of an LSP diagnostic by its protocol number (1 error,
/// 2 warning, 3 information, 4 hint); an error when it has none.
pub open spec fn severity_spec(code: Option<u32>) -> DiagnosticSeverity {
    match code {
        Some(2) => DiagnosticSeverity::Warning,
        Some(3) => DiagnosticSeverity::Information,
        Some(4) => DiagnosticSeverity::Hint,
        _ => DiagnosticSeverity::Error,
    }
}

/// The severity of an LSP diagnostic by its protocol number.
pub fn severity_from_lsp(code: Option<u32>) -> (r: DiagnosticSeverity)
    ensures
        r == severity_spec(code),
{
    match code {
        Some(2) => DiagnosticSeverity::Warning,
        Some(3) => DiagnosticSeverity::Information,
        Some(4) => DiagnosticSeverity::Hint,
        _ => DiagnosticSeverity::Error,
    }
}

/// The icon and colour a diagnostic of each severity is shown with.
pub open spec fn severity_style_spec(s: DiagnosticSeverity) -> (Seq<char>, (u8, u8, u8)) {
    match s {
        DiagnosticSeverity::Error => ("❌"@, (255, 80, 80)),
        DiagnosticSeverity::Warning => ("⚠️"@, (255, 200, 100)),
        DiagnosticSeverity::Information => ("ℹ️"@, (100, 150, 255)),
        DiagnosticSeverity::Hint => ("💡"@, (150, 150, 150)),
    }
}

/// The icon and colour of a diagnostic of the given severity.
pub fn severity_style(s: DiagnosticSeverity) -> (r: (&'static str, Rgb))
    ensures
        (r.0@, (r.1.r, r.1.g, r.1.b)) == severity_style_spec(s),
{
    match s {
        DiagnosticSeverity::Error => ("❌", Rgb { r: 255, g: 80, b: 80 }),
        DiagnosticSeverity::Warning => ("⚠️", Rgb { r: 255, g: 200, b: 100 }),
        DiagnosticSeverity::Information => ("ℹ️", Rgb { r: 100, g: 150, b: 255 }),
        DiagnosticSeverity::Hint => ("💡", Rgb { r: 150, g: 150, b: 150 }),
    }
}

/// One diagnostic, at a zero-based line and column.
#[derive(Debug, Clone)]
pub struct LspDiagnostic {
    pub line: usize,
    pub column: usize,
    pub severity: DiagnosticSeverity,
    pub message: String,
    pub source: Option<String>,
}

/// The positions of the diagnostics on a line, in order.
pub open spec fn on_line(ds: Seq<LspDiagnostic>, line: usize) -> Seq<usize>
    decreases ds.len(),
{
    if ds.len() == 0 {
        Seq::empty()
    } else {
        let rest = on_line(ds.drop_last(), line);
        if ds.last().line == line {
            rest.push((ds.len() - 1) as usize)
        } else {
            rest
        }
    }
}

/// The positions of the diagnostics shown beside a line.
pub fn diagnostics_on_line(ds: &Vec<LspDiagnostic>, line: usize) -> (r: Vec<usize>)
    ensures
        r@ == on_line(ds@, line),
{
    let mut r: Vec<usize> = Vec::new();
    let mut i: usize = 0;
    while i < ds.len()
        invariant
            i <= ds@.len(),
            r@ == on_line(ds@.take(i as int), line),
        decreases ds@.len() - i,
    {
        assert(ds@.take(i + 1).drop_last() =~= ds@.take(i as int));
        if ds[i].line == line {
            r.push(i);
        }
        i = i + 1;
    }
    assert(ds@.take(ds@.len() as int) =~= ds@);
    r
}

/// "Problems (N)".
pub fn problems_heading(n: usize) -> (r: String)
    ensures
        r@ == "Problems ("@ + decimal(n as nat) + ")"@,
{
    let mut s = owned("Problems (");
    push_u64(&mut s, n as u64);
    push_str(&mut s, ")");
    s
}

/// Where a diagnostic is: the last part of its source (`unknown` without
/// one) and its one-based line and column.
pub open spec fn diagnostic_location_spec(d: LspDiagnostic) -> Seq<char> {
    (match d.source {
        Some(s) => after_last(s@, '/'),
        None => "unknown"@,
    }) + ":"@ + decimal((d.line + 1) as nat) + ":"@ + decimal((d.column + 1) as nat)
}

/// Where a diagnostic is, as the problems panel shows it.
pub fn diagnostic_location(d: &LspDiagnostic) -> (r: String)
    requires
        d.line < usize::MAX,
        d.column < usize::MAX,
    ensures
        r@ == diagnostic_location_spec(*d),
{
    let mut s = match &d.source {
        Some(src) => {
            let v = chars_of(src.as_str());
            let w = after_last_char(v.as_slice(), '/');
            string_of(w.as_slice())
        },
        None => owned("unknown"),
    };
    push_str(&mut s, ":");
    push_u64(&mut s, (d.line + 1) as u64);
    push_str(&mut s, ":");
    push_u64(&mut s, (d.column + 1) as u64);
    s
}

/// A diagnostic's message as the panel shows it: cut to its first 77 bytes
/// and `...` when it is longer than 80 bytes.
pub open spec fn short_message_spec(m: Seq<char>) -> Seq<char> {
    if encode_utf8(m).len() > 80 {
        decode_utf8(encode_utf8(m).subrange(0, 77)) + "..."@
    } else {
        m
    }
}

/// Whether a message can be cut after its first 77 bytes (it is at most 80
/// bytes long, or byte 77 starts a character).
pub open spec fn short_message_ok(m: Seq<char>) -> bool {
    encode_utf8(m).len() > 80 ==> is_char_boundary(encode_utf8(m), 77)
}

/// A diagnostic's message as the problems panel shows it.
pub fn short_message(m: &str) -> (r: String)
    requires
        short_message_ok(m@),
    ensures
        r@ == short_message_spec(m@),
{
    let n = m.as_bytes().len();
    if n > 80 {
        let (head, _) = m.split_at(77);
        proof {
            vstd::utf8::encode_utf8_decode_utf8(head@);
        }
        let mut out = owned(head);
        push_str(&mut out, "...");
        out
    } else {
        owned(m)
    }
}

// ───────────────────────── hover ─────────────────────────

/// One piece of hover text: plain (markdown) text, or code in a language.
#[derive(Debug, Clone)]
pub enum HoverPiece {
    Plain(String),
    Code { language: String, value: String },
}

/// A hover's contents: one piece, several, or markup.
#[derive(Debug, Clone)]
pub enum HoverBody {
    Single(HoverPiece),
    Several(Vec<HoverPiece>),
    Markup(String),
}

/// The text of one piece: plain text as it is, code fenced with its
/// language.
pub open spec fn piece_text(p: HoverPiece) -> Seq<char> {
    match p {
        HoverPiece::Plain(s) => s@,
        HoverPiece::Code { language, value } => "```"@ + language@ + "\n"@ + value@ + "\n```"@,
    }
}

/// The text of a hover: several pieces are joined by blank lines.
pub open spec fn hover_text_spec(b: HoverBody) -> Seq<char> {
    match b {
        HoverBody::Single(p) => piece_text(p),
        HoverBody::Several(ps) => join(ps@.map_values(|p: HoverPiece| piece_text(p)), "\n\n"@),
        HoverBody::Markup(s) => s@,
    }
}

/// The text of one piece of a hover.
fn piece_chars(p: &HoverPiece) -> (r: Vec<char>)
    ensures
        r@ == piece_text(*p),
{
    match p {
        HoverPiece::Plain(s) => chars_of(s.as_str()),
        HoverPiece::Code { language, value } => {
            let mut s = owned("```");
            push_str(&mut s, language.as_str());
            push_str(&mut s, "\n");
            push_str(&mut s, value.as_str());
            push_str(&mut s, "\n```");
            assert(s@ =~= piece_text(*p));
            chars_of(s.as_str())
        },
    }
}

/// The text the hover window shows.
pub fn hover_text(b: &HoverBody) -> (r: String)
    ensures
        r@ == hover_text_spec(*b),
{
    match b {
        HoverBody::Single(p) => {
            let v = piece_chars(p);
            string_of(v.as_slice())
        },
        HoverBody::Several(ps) => {
            let mut parts: Vec<Vec<char>> = Vec::new();
            let mut i: usize = 0;
            while i < ps.len()
                invariant
                    i <= ps@.len(),
                    parts@.len() == i,
                    forall|k: int| 0 <= k < i ==> (#[trigger] parts@[k])@ == piece_text(ps@[k]),
                decreases ps@.len() - i,
            {
                parts.push(piece_chars(&ps[i]));
                i = i + 1;
            }
            assert(views(parts@) =~= ps@.map_values(|p: HoverPiece| piece_text(p)));
            let joined = crate::text::join_chars(parts.as_slice(), "\n\n");
            string_of(joined.as_slice())
        },
        HoverBody::Markup(s) => owned(s.as_str()),
    }
}

// ───────────────────────── locations ─────────────────────────

/// A place in a file: zero-based line and (UTF-16) column.
#[derive(Debug, Clone)]
pub struct LspLocation {
    pub file_path: String,
    pub line: usize,
    pub column: usize,
}

/// "N definitions found:".
pub fn definitions_heading(n: usize) -> (r: String)
    ensures
        r@ == decimal(n as nat) + " definitions found:"@,
{
    let mut s = String::new();
    push_u64(&mut s, n as u64);
    push_str(&mut s, " definitions found:");
    s
}

/// One choice of the definition picker: its one-based number, file name and
/// line, and the full path.
pub open spec fn definition_choice_spec(idx: nat, loc: LspLocation) -> Seq<char> {
    decimal(idx + 1) + "  "@ + after_last(loc.file_path@, '/') + ":"@ + decimal((loc.line + 1) as nat)
        + "  ("@ + loc.file_path@ + ")"@
}

/// The label of the `idx`-th choice of the definition picker.
pub fn definition_choice(idx: usize, loc: &LspLocation) -> (r: String)
    requires
        idx < usize::MAX,
        loc.line < usize::MAX,
    ensures
        r@ == definition_choice_spec(idx as nat, *loc),
{
    let mut s = String::new();
    push_u64(&mut s, (idx + 1) as u64);
    push_str(&mut s, "  ");
    let v = chars_of(loc.file_path.as_str());
    let name = after_last_char(v.as_slice(), '/');
    push_seq(&mut s, name.as_slice());
    push_str(&mut s, ":");
    push_u64(&mut s, (loc.line + 1) as u64);
    push_str(&mut s, "  (");
    push_str(&mut s, loc.file_path.as_str());
    push_str(&mut s, ")");
    s
}

/// "N references found".
pub fn references_heading(n: usize) -> (r: String)
    ensures
        r@ == decimal(n as nat) + " references found"@,
{
    let mut s = String::new();
    push_u64(&mut s, n as u64);
    push_str(&mut s, " references found");
    s
}

/// A reference as the references panel lists it: file name and one-based
/// line and column.
pub open spec fn reference_label_spec(loc: LspLocation) -> Seq<char> {
    after_last(loc.file_path@, '/') + ":"@ + decimal((loc.line + 1) as nat) + ":"@ + decimal(
        (loc.column + 1) as nat,
    )
}

/// The label of a reference.
pub fn reference_label(loc: &LspLocation) -> (r: String)
    requires
        loc.line < usize::MAX,
        loc.column < usize::MAX,
    ensures
        r@ == reference_label_spec(*loc),
{
    let v = chars_of(loc.file_path.as_str());
    let name = after_last_char(v.as_slice(), '/');
    let mut s = string_of(name.as_slice());
    push_str(&mut s, ":");
    push_u64(&mut s, (loc.line + 1) as u64);
    push_str(&mut s, ":");
    push_u64(&mut s, (loc.column + 1) as u64);
    s
}

/// Whether a path is in the Rust toolchain's own sources (under `.rustup`),
/// which the editor opens read-only.
pub open spec fn is_toolchain_source_spec(path: Seq<char>) -> bool {
    crate::text::contains(path, "/.rustup/"@) || crate::text::contains(path, "\\.rustup\\"@)
}

/// Whether a path is in the Rust toolchain's own sources.
pub fn is_toolchain_source(path: &str) -> (r: bool)
    ensures
        r == is_toolchain_source_spec(path@),
{
    let v = chars_of(path);
    contains_str(v.as_slice(), "/.rustup/") || contains_str(v.as_slice(), "\\.rustup\\")
}

/// The first open tab whose file is `path`.
pub open spec fn open_tab_spec(open: Seq<String>, path: Seq<char>) -> Option<int>
    decreases open.len(),
{
    if open.len() == 0 {
        None
    } else {
        match open_tab_spec(open.drop_last(), path) {
            Some(i) => Some(i),
            None => if open.last()@ == path {
                Some(open.len() - 1)
            } else {
                None
            },
        }
    }
}

/// How a jump to a location goes: the open tab to switch to, or else
/// whether the file is to be opened read-only; the line and column to put
/// the cursor on; and the status message.
pub struct JumpPlan {
    pub open_tab: Option<usize>,
    pub read_only: bool,
    pub line: usize,
    pub column: usize,
    pub status: String,
}

/// A jump to `loc` with the given tabs open: switch to the first tab of the
/// file if there is one, else open the file (read-only when it is in the
/// Rust toolchain's sources); the cursor goes to the location (its column as
/// given) and the status names the file.
pub fn jump_plan(open: &Vec<String>, loc: &LspLocation) -> (p: JumpPlan)
    ensures
        p.open_tab matches Some(i) ==> open_tab_spec(open@, loc.file_path@) == Some(i as int),
        p.open_tab is None ==> open_tab_spec(open@, loc.file_path@) is None,
        p.read_only == (p.open_tab is None && is_toolchain_source_spec(loc.file_path@)),
        p.line == loc.line,
        p.column == loc.column,
        p.status@ == "✅ Jumped to "@ + after_last(loc.file_path@, '/'),
{
    let target = chars_of(loc.file_path.as_str());
    let mut i: usize = 0;
    let mut found: Option<usize> = None;
    while i < open.len()
        invariant_except_break
            open_tab_spec(open@.take(i as int), loc.file_path@) is None,
            found is None,
            i == open@.len() ==> open_tab_spec(open@, loc.file_path@) is None,
        invariant
            i <= open@.len(),
            target@ == loc.file_path@,
        ensures
            found is None ==> open_tab_spec(open@, loc.file_path@) is None,
            found matches Some(k) ==> open_tab_spec(open@, loc.file_path@) == Some(k as int),
        decreases open@.len() - i,
    {
        assert(open@.take(i + 1).drop_last() =~= open@.take(i as int));
        let cv = chars_of(open[i].as_str());
        if seq_eq(cv.as_slice(), target.as_slice()) {
            proof {
                assert(open@.take(i + 1).last() == open@[i as int]);
                assert(open_tab_spec(open@.take(i + 1), loc.file_path@) == Some(i as int));
                lemma_open_tab_prefix(open@, loc.file_path@, i as int + 1);
            }
            found = Some(i);
            break;
        }
        i = i + 1;
        assert(i == open@.len() ==> open@.take(i as int) =~= open@);
    }
    let read_only = found.is_none() && is_toolchain_source(loc.file_path.as_str());
    let name = after_last_char(target.as_slice(), '/');
    let mut status = owned("✅ Jumped to ");
    push_seq(&mut status, name.as_slice());
    JumpPlan { open_tab: found, read_only, line: loc.line, column: loc.column, status }
}

/// A tab found within the first `k` tabs is the first tab of the file.
pub proof fn lemma_open_tab_prefix(open: Seq<String>, path: Seq<char>, k: int)
    requires
        0 <= k <= open.len(),
        open_tab_spec(open.take(k), path) is Some,
    ensures
        open_tab_spec(open, path) == open_tab_spec(open.take(k), path),
    decreases open.len() - k,
{
    if k < open.len() {
        assert(open.take(k + 1).drop_last() =~= open.take(k));
        lemma_open_tab_prefix(open, path, k + 1);
    } else {
        assert(open.take(k) =~= open);
    }
}

/// The searches run over the project for a word's definition, in order.
pub open spec fn project_search_patterns_spec(word: Seq<char>) -> Seq<Seq<char>> {
    seq![
        "pub fn "@ + word,
        "pub struct "@ + word,
        "pub enum "@ + word,
        "pub trait "@ + word,
        "pub type "@ + word,
        "pub const "@ + word,
        "fn "@ + word,
        "struct "@ + word,
        "enum "@ + word,
        "trait "@ + word,
        "type "@ + word,
        "const "@ + word,
    ]
}

/// The text searched for over the project to find `word`'s definition.
pub fn project_search_patterns(word: &str) -> (r: Vec<String>)
    ensures
        r@.map_values(|s: String| s@) == project_search_patterns_spec(word@),
{
    let prefixes = [
        "pub fn ",
        "pub struct ",
        "pub enum ",
        "pub trait ",
        "pub type ",
        "pub const ",
        "fn ",
        "struct ",
        "enum ",
        "trait ",
        "type ",
        "const ",
    ];
    let ghost want = project_search_patterns_spec(word@);
    let mut r: Vec<String> = Vec::new();
    let mut i: usize = 0;
    while i < 12
        invariant
            i <= 12,
            want == project_search_patterns_spec(word@),
            prefixes@.len() == 12,
            forall|k: int| 0 <= k < 12 ==> #[trigger] want[k] == prefixes@[k]@ + word@,
            r@.len() == i,
            forall|k: int| 0 <= k < i ==> (#[trigger] r@[k])@ == want[k],
        decreases 12 - i,
    {
        let mut s = owned(prefixes[i]);
        push_str(&mut s, word);
        r.push(s);
        i = i + 1;
    }
    assert(r@.map_values(|s: String| s@) =~= want);
    r
}

// ───────────────────────── macro expansion ─────────────────────────

/// Whether a macro expansion can be asked for, and the status line shown:
/// only with a connected language server and in a Rust file.
pub open spec fn macro_expand_status_spec(connected: bool, path: Seq<char>) -> (bool, Seq<char>) {
    if !connected {
        (false, "LSP not connected"@)
    } else if !crate::text::ends_with(path, ".rs"@) {
        (false, "Macro expansion only works for Rust files"@)
    } else {
        (true, "Expanding macro..."@)
    }
}

/// Whether to send a macro expansion request for the file at `path`, and
/// the status line to show.
pub fn macro_expand_status(connected: bool, path: &str) -> (r: (bool, &'static str))
    ensures
        (r.0, r.1@) == macro_expand_status_spec(connected, path@),
{
    if !connected {
        return (false, "LSP not connected");
    }
    let v = chars_of(path);
    if !crate::text::ends_with_str(v.as_slice(), ".rs") {
        return (false, "Macro expansion only works for Rust files");
    }
    (true, "Expanding macro...")
}

/// What an expansion answer gives: nothing without a (non-null) result or
/// with an empty expansion; else the macro's name (`macro` when the answer
/// has none) and its expansion.
pub open spec fn macro_expansion_spec(
    has_result: bool,
    name: Option<Seq<char>>,
    expansion: Option<Seq<char>>,
) -> Option<(Seq<char>, Seq<char>)> {
    let e = match expansion {
        Some(e) => e,
        None => Seq::empty(),
    };
    if !has_result || e.len() == 0 {
        None
    } else {
        Some(
            (
                match name {
                    Some(n) => n,
                    None => "macro"@,
                },
                e,
            ),
        )
    }
}

/// The name and expansion of a macro from the server's answer: whether the
/// answer holds a non-null result, and that result's `name` and `expansion`
/// strings where it has them.
pub fn macro_expansion(has_result: bool, name: Option<String>, expansion: Option<String>) -> (r:
    Option<(String, String)>)
    ensures
        r matches Some(p) ==> macro_expansion_spec(
            has_result,
            match name {
                Some(n) => Some(n@),
                None => None,
            },
            match expansion {
                Some(e) => Some(e@),
                None => None,
            },
        ) == Some((p.0@, p.1@)),
        r is None ==> macro_expansion_spec(
            has_result,
            match name {
                Some(n) => Some(n@),
                None => None,
            },
            match expansion {
                Some(e) => Some(e@),
                None => None,
            },
        ) is None,
{
    if !has_result {
        return None;
    }
    let e = match expansion {
        Some(e) => e,
        None => String::new(),
    };
    if e.as_str().unicode_len() == 0 {
        return None;
    }
    let n = match name {
        Some(n) => n,
        None => owned("macro"),
    };
    Some((n, e))
}

} // verus!
