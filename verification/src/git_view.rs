//! How the git panel shows history and diffs: the branch colours of the
//! commit graph, the colour of a file's diff status, and the style and
//! line-number column of each diff line. Drawing is left to the caller.
use crate::text::{decimal, owned, push_char, push_str, push_u64};
use crate::ui_colors::Rgb;
use vstd::prelude::*;

verus! {

/// The branch colours of the commit graph: green, blue, yellow, red,
/// purple, coral, cyan, orange.
pub open spec fn graph_palette() -> Seq<(u8, u8, u8)> {
    seq![
        (106u8, 180u8, 89u8),
        (100u8, 181u8, 246u8),
        (255u8, 198u8, 109u8),
        (239u8, 83u8, 80u8),
        (171u8, 128u8, 255u8),
        (255u8, 138u8, 128u8),
        (128u8, 222u8, 234u8),
        (255u8, 171u8, 64u8),
    ]
}

pub open spec fn rgb_view(c: Rgb) -> (u8, u8, u8) {
    (c.r, c.g, c.b)
}

/// The colour of a graph lane or node: the palette, cycled.
pub fn graph_color(index: usize) -> (r: Rgb)
    ensures
        rgb_view(r) == graph_palette()[(index % 8) as int],
{
    let palette: [Rgb; 8] = [
        Rgb { r: 106, g: 180, b: 89 },
        Rgb { r: 100, g: 181, b: 246 },
        Rgb { r: 255, g: 198, b: 109 },
        Rgb { r: 239, g: 83, b: 80 },
        Rgb { r: 171, g: 128, b: 255 },
        Rgb { r: 255, g: 138, b: 128 },
        Rgb { r: 128, g: 222, b: 234 },
        Rgb { r: 255, g: 171, b: 64 },
    ];
    palette[index % 8]
}

/// The colour of a diff's status; none for a status shown in the default
/// text colour.
pub open spec fn status_color_spec(status: Seq<char>) -> Option<(u8, u8, u8)> {
    if status == "added"@ {
        Some((100, 255, 100))
    } else if status == "deleted"@ {
        Some((255, 100, 100))
    } else if status == "modified"@ {
        Some((100, 180, 255))
    } else {
        None
    }
}

fn is_status(status: &str, name: &str) -> (r: bool)
    ensures
        r == (status@ == name@),
{
    let a = crate::text::chars_of(status);
    let b = crate::text::chars_of(name);
    crate::text::seq_eq(a.as_slice(), b.as_slice())
}

/// The colour a diff's status is shown in (`added`, `deleted`,
/// `modified`); none for the default text colour.
pub fn diff_status_color(status: &str) -> (r: Option<Rgb>)
    ensures
        r matches Some(c) ==> status_color_spec(status@) == Some(rgb_view(c)),
        r is None ==> status_color_spec(status@) is None,
{
    if is_status(status, "added") {
        Some(Rgb { r: 100, g: 255, b: 100 })
    } else if is_status(status, "deleted") {
        Some(Rgb { r: 255, g: 100, b: 100 })
    } else if is_status(status, "modified") {
        Some(Rgb { r: 100, g: 180, b: 255 })
    } else {
        None
    }
}

/// How a diff line is drawn: its background (none for transparent), the
/// colour of its `+`/`-` marker, and the marker itself.
#[derive(Debug, Clone, Copy)]
pub struct DiffLineStyle {
    pub background: Option<Rgb>,
    pub marker: Rgb,
    pub prefix: &'static str,
}

/// The style of a diff line by its origin: additions green, deletions red,
/// context without background.
pub open spec fn line_style_spec(origin: char) -> (Option<(u8, u8, u8)>, (u8, u8, u8), Seq<char>) {
    if origin == '+' {
        (Some((24, 50, 24)), (80, 180, 80), "+"@)
    } else if origin == '-' {
        (Some((55, 20, 20)), (200, 70, 70), "-"@)
    } else {
        (None, (60, 60, 60), " "@)
    }
}

pub open spec fn style_view(s: DiffLineStyle) -> (Option<(u8, u8, u8)>, (u8, u8, u8), Seq<char>) {
    (
        match s.background {
            Some(c) => Some(rgb_view(c)),
            None => None,
        },
        rgb_view(s.marker),
        s.prefix@,
    )
}

/// The style a diff line is drawn with.
pub fn diff_line_style(origin: char) -> (r: DiffLineStyle)
    ensures
        style_view(r) == line_style_spec(origin),
{
    if origin == '+' {
        DiffLineStyle {
            background: Some(Rgb { r: 24, g: 50, b: 24 }),
            marker: Rgb { r: 80, g: 180, b: 80 },
            prefix: "+",
        }
    } else if origin == '-' {
        DiffLineStyle {
            background: Some(Rgb { r: 55, g: 20, b: 20 }),
            marker: Rgb { r: 200, g: 70, b: 70 },
            prefix: "-",
        }
    } else {
        DiffLineStyle { background: None, marker: Rgb { r: 60, g: 60, b: 60 }, prefix: " " }
    }
}

/// `s` right-aligned in a field of `width` characters.
pub open spec fn pad_left(s: Seq<char>, width: nat) -> Seq<char> {
    if s.len() < width {
        Seq::new((width - s.len()) as nat, |i: int| ' ') + s
    } else {
        s
    }
}

/// The line-number column of a diff line: the old line number for a
/// deletion, the new one otherwise, right-aligned in four columns; four
/// spaces when there is none.
pub open spec fn line_number_spec(origin: char, old_lineno: Option<u32>, new_lineno: Option<u32>) -> Seq<
    char,
> {
    let n = if origin == '-' {
        old_lineno
    } else {
        new_lineno
    };
    match n {
        Some(k) => pad_left(decimal(k as nat), 4),
        None => "    "@,
    }
}

/// The line-number column of a diff line.
pub fn diff_line_number(origin: char, old_lineno: Option<u32>, new_lineno: Option<u32>) -> (r: String)
    ensures
        r@ == line_number_spec(origin, old_lineno, new_lineno),
{
    let n = if origin == '-' {
        old_lineno
    } else {
        new_lineno
    };
    match n {
        Some(k) => {
            let mut digits = String::new();
            push_u64(&mut digits, k as u64);
            let dv = crate::text::chars_of(digits.as_str());
            let mut out = String::new();
            let mut pad: usize = 0;
            let need: usize = if dv.len() < 4 {
                4 - dv.len()
            } else {
                0
            };
            while pad < need
                invariant
                    pad <= need,
                    out@ == Seq::new(pad as nat, |i: int| ' '),
                decreases need - pad,
            {
                push_char(&mut out, ' ');
                assert(out@ =~= Seq::new((pad + 1) as nat, |i: int| ' '));
                pad = pad + 1;
            }
            push_str(&mut out, digits.as_str());
            assert(digits@ == decimal(k as nat));
            if dv.len() >= 4 {
                assert(out@ =~= digits@);
            }
            out
        },
        None => owned("    "),
    }
}


// ───────────────────────── the status tab ─────────────────────────

/// One changed file as the status tab lists it.
#[derive(Debug, Clone)]
pub struct GitFileStatus {
    pub path: String,
    /// `modified`, `added`, `deleted`, `renamed` or another word.
    pub status: String,
    pub is_staged: bool,
}

/// The letter shown beside a changed file.
pub open spec fn status_letter_spec(status: Seq<char>) -> Seq<char> {
    if status == "modified"@ {
        "M"@
    } else if status == "added"@ {
        "A"@
    } else if status == "deleted"@ {
        "D"@
    } else if status == "renamed"@ {
        "R"@
    } else {
        "?"@
    }
}

/// The letter shown beside a changed file: `M`, `A`, `D`, `R`, or `?`.
pub fn status_letter(status: &str) -> (r: &'static str)
    ensures
        r@ == status_letter_spec(status@),
{
    if is_status(status, "modified") {
        "M"
    } else if is_status(status, "added") {
        "A"
    } else if is_status(status, "deleted") {
        "D"
    } else if is_status(status, "renamed") {
        "R"
    } else {
        "?"
    }
}

/// The colour of that letter; light gray for anything but a modification,
/// an addition or a deletion.
pub open spec fn status_letter_rgb(status: Seq<char>) -> (u8, u8, u8) {
    if status == "modified"@ {
        (255, 198, 109)
    } else if status == "added"@ {
        (106, 180, 89)
    } else if status == "deleted"@ {
        (255, 100, 100)
    } else {
        (220, 220, 220)
    }
}

/// The colour of a changed file's status letter.
pub fn status_letter_color(status: &str) -> (r: Rgb)
    ensures
        rgb_view(r) == status_letter_rgb(status@),
{
    if is_status(status, "modified") {
        Rgb { r: 255, g: 198, b: 109 }
    } else if is_status(status, "added") {
        Rgb { r: 106, g: 180, b: 89 }
    } else if is_status(status, "deleted") {
        Rgb { r: 255, g: 100, b: 100 }
    } else {
        Rgb { r: 220, g: 220, b: 220 }
    }
}

/// The positions of the files that are (or are not) staged, in order.
pub open spec fn group_indices(files: Seq<GitFileStatus>, staged: bool) -> Seq<usize>
    decreases files.len(),
{
    if files.len() == 0 {
        Seq::empty()
    } else {
        let rest = group_indices(files.drop_last(), staged);
        if files.last().is_staged == staged {
            rest.push((files.len() - 1) as usize)
        } else {
            rest
        }
    }
}

/// Every changed file falls in exactly one group: a position is in the
/// staged group when its file is staged and in the unstaged group when it is
/// not, and the two groups together hold every file once.
pub proof fn lemma_groups_partition(files: Seq<GitFileStatus>, staged: bool, i: int)
    requires
        files.len() <= usize::MAX,
    ensures
        group_indices(files, staged).contains(i as usize) && 0 <= i <= usize::MAX <==> (0 <= i
            < files.len() && files[i].is_staged == staged),
        group_indices(files, true).len() + group_indices(files, false).len() == files.len(),
    decreases files.len(),
{
    if files.len() > 0 {
        let rest = files.drop_last();
        lemma_groups_partition(rest, staged, i);
        let g = group_indices(files, staged);
        let gr = group_indices(rest, staged);
        if files.last().is_staged == staged {
            assert(g == gr.push((files.len() - 1) as usize));
            if 0 <= i <= usize::MAX && g.contains(i as usize) && !gr.contains(i as usize) {
                assert(i == files.len() - 1);
            }
            if i == files.len() - 1 {
                assert(g[gr.len() as int] == i as usize);
            }
            if 0 <= i <= usize::MAX && gr.contains(i as usize) {
                let k = choose|k: int| 0 <= k < gr.len() && gr[k] == i as usize;
                assert(g[k] == i as usize);
            }
        } else {
            if i == files.len() - 1 && 0 <= i <= usize::MAX {
                assert(!gr.contains(i as usize));
            }
        }
    }
}

/// The status tab's two groups: the positions of the staged files, then of
/// the unstaged ones, each in the order given.
pub fn staging_groups(files: &Vec<GitFileStatus>) -> (r: (Vec<usize>, Vec<usize>))
    ensures
        r.0@ == group_indices(files@, true),
        r.1@ == group_indices(files@, false),
{
    let mut staged: Vec<usize> = Vec::new();
    let mut unstaged: Vec<usize> = Vec::new();
    let mut i: usize = 0;
    while i < files.len()
        invariant
            i <= files@.len(),
            staged@ == group_indices(files@.take(i as int), true),
            unstaged@ == group_indices(files@.take(i as int), false),
        decreases files@.len() - i,
    {
        assert(files@.take(i + 1).drop_last() =~= files@.take(i as int));
        if files[i].is_staged {
            staged.push(i);
        } else {
            unstaged.push(i);
        }
        i = i + 1;
    }
    assert(files@.take(files@.len() as int) =~= files@);
    (staged, unstaged)
}

/// A group's heading with its size.
pub open spec fn group_heading_spec(staged: bool, n: nat) -> Seq<char> {
    (if staged {
        "Staged Changes ("@
    } else {
        "Unstaged Changes ("@
    }) + decimal(n) + ")"@
}

/// The heading of the staged or of the unstaged group.
pub fn group_heading(staged: bool, n: usize) -> (r: String)
    ensures
        r@ == group_heading_spec(staged, n as nat),
{
    let mut s = if staged {
        owned("Staged Changes (")
    } else {
        owned("Unstaged Changes (")
    };
    push_u64(&mut s, n as u64);
    push_str(&mut s, ")");
    s
}

/// The hover action of a changed file: unstage (`remove` icon) a staged
/// file, stage (`add` icon) another.
pub fn stage_action_icon(is_staged: bool) -> (r: &'static str)
    ensures
        r@ == (if is_staged {
            "\u{eb2a}"@
        } else {
            "\u{ea7a}"@
        }),
{
    if is_staged {
        "\u{eb2a}"
    } else {
        "\u{ea7a}"
    }
}

/// The file name shown for a changed path: its last `/`-separated part.
pub fn status_file_name(path: &str) -> (r: String)
    ensures
        r@ == crate::text::after_last(path@, '/'),
{
    let v = crate::text::chars_of(path);
    let w = crate::text::after_last_char(v.as_slice(), '/');
    crate::text::string_of(w.as_slice())
}

} // verus!
