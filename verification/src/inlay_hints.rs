//! Inlay hints: when to ask the language server for them, how a hint's
//! label and kind are read, and which hints belong to an editor line.
//! Sending the request and drawing the hints are left to the caller.
use crate::text::{ends_with, ends_with_str, owned, push_str};
use vstd::prelude::*;

verus! {

/// One inlay hint: where it goes, its text, and `type` or `parameter`.
#[derive(Debug, Clone)]
pub struct InlayHint {
    pub line: usize,
    pub column: usize,
    pub label: String,
    pub kind: &'static str,
}

/// Whether it is time to ask for the current file's inlay hints: hints are
/// on, the language server is connected, a tab is open on a `.rs` file, and
/// no request went out in the last second.
pub open spec fn request_due(
    enabled: bool,
    connected: bool,
    since_last_ms: Option<u64>,
    active_path: Option<Seq<char>>,
) -> bool {
    &&& enabled
    &&& connected
    &&& (since_last_ms matches Some(ms) ==> ms > 1000)
    &&& (active_path matches Some(p) && ends_with(p, ".rs"@))
}

/// Whether to ask for inlay hints now (milliseconds since the last
/// request, if any; the active tab's path, if a tab is open).
pub fn inlay_request_due(
    enabled: bool,
    connected: bool,
    since_last_ms: Option<u64>,
    active_path: Option<&str>,
) -> (r: bool)
    ensures
        r == request_due(
            enabled,
            connected,
            since_last_ms,
            match active_path {
                Some(p) => Some(p@),
                None => None,
            },
        ),
{
    if !enabled || !connected {
        return false;
    }
    match since_last_ms {
        Some(ms) => {
            if ms <= 1000 {
                return false;
            }
        },
        None => {},
    }
    match active_path {
        Some(p) => {
            let pv = crate::text::chars_of(p);
            ends_with_str(pv.as_slice(), ".rs")
        },
        None => false,
    }
}

/// The kinds of inlay hint the server reports.
#[derive(Debug, Clone, Copy, PartialEq, Eq, Structural)]
pub enum InlayKindTag {
    Type,
    Parameter,
    Unspecified,
}

/// The kind name a hint is drawn with: `parameter` for parameter hints,
/// `type` for everything else.
pub fn inlay_kind_name(k: InlayKindTag) -> (r: &'static str)
    ensures
        r@ == (if k == InlayKindTag::Parameter {
            "parameter"@
        } else {
            "type"@
        }),
{
    match k {
        InlayKindTag::Parameter => "parameter",
        _ => "type",
    }
}

/// The concatenation of label parts.
pub open spec fn concat(parts: Seq<Seq<char>>) -> Seq<char>
    decreases parts.len(),
{
    if parts.len() == 0 {
        Seq::empty()
    } else {
        concat(parts.drop_last()) + parts.last()
    }
}

/// A label given in parts: the parts' values joined.
pub fn label_from_parts(parts: &Vec<String>) -> (r: String)
    ensures
        r@ == concat(parts@.map_values(|s: String| s@)),
{
    let ghost pv = parts@.map_values(|s: String| s@);
    let mut out = String::new();
    let mut i: usize = 0;
    assert(pv.take(0) =~= Seq::<Seq<char>>::empty());
    while i < parts.len()
        invariant
            i <= parts@.len(),
            pv == parts@.map_values(|s: String| s@),
            out@ == concat(pv.take(i as int)),
        decreases parts@.len() - i,
    {
        assert(pv.take(i + 1).drop_last() =~= pv.take(i as int));
        push_str(&mut out, parts[i].as_str());
        i = i + 1;
    }
    assert(pv.take(parts@.len() as int) =~= pv);
    out
}

/// What a hint is drawn as: its column, text and kind.
pub open spec fn hint_view(h: InlayHint) -> (usize, Seq<char>, Seq<char>) {
    (h.column, h.label@, h.kind@)
}

/// The hints on an editor line, in order, as (column, text, kind); none
/// while hints are off.
pub fn hints_for_line(enabled: bool, hints: &Vec<InlayHint>, line_idx: usize) -> (r: Vec<
    (usize, String, &'static str),
>)
    ensures
        r@.map_values(|t: (usize, String, &'static str)| (t.0, t.1@, t.2@)) == (if enabled {
            hints@.filter(|h: InlayHint| h.line == line_idx).map_values(|h: InlayHint| hint_view(h))
        } else {
            Seq::empty()
        }),
{
    let ghost f = |t: (usize, String, &'static str)| (t.0, t.1@, t.2@);
    let ghost keep = |h: InlayHint| h.line == line_idx;
    let mut out: Vec<(usize, String, &'static str)> = Vec::new();
    if !enabled {
        assert(out@.map_values(f) =~= Seq::<(usize, Seq<char>, Seq<char>)>::empty());
        return out;
    }
    let mut i: usize = 0;
    assert(hints@.take(0) =~= Seq::<InlayHint>::empty());
    while i < hints.len()
        invariant
            i <= hints@.len(),
            keep == (|h: InlayHint| h.line == line_idx),
            f == (|t: (usize, String, &'static str)| (t.0, t.1@, t.2@)),
            out@.map_values(f) == hints@.take(i as int).filter(keep).map_values(
                |h: InlayHint| hint_view(h),
            ),
        decreases hints@.len() - i,
    {
        proof {
            reveal_with_fuel(Seq::filter, 1);
            assert(hints@.take(i + 1).drop_last() =~= hints@.take(i as int));
        }
        let h = &hints[i];
        if h.line == line_idx {
            let ghost before = out@.map_values(f);
            out.push((h.column, owned(h.label.as_str()), h.kind));
            assert(out@.map_values(f) =~= before.push(hint_view(*h)));
        }
        i = i + 1;
    }
    assert(hints@.take(hints@.len() as int) =~= hints@);
    out
}

} // verus!
