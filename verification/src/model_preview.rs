//! 3D model preview: the parts of the PLY and STL readers that decide the
//! layout of the data (the PLY header, the byte offsets of vertex
//! properties, the binary STL check and little-endian words).
use crate::text::{
    after_last, after_last_char, chars_of, contains, contains_str, eq_str, lines, lines_of, parse_usize, parse_usize_chars,
    seq_eq, starts_with, starts_with_str, string_of, trim, trim_chars, views, words, words_of,
    Separator,
};
use vstd::prelude::*;

verus! {

/// A triangle face with vertex indices and a base colour.
#[derive(Debug, Clone, Copy)]
pub struct TriFace {
    pub idx: [usize; 3],
    /// RGBA.
    pub color: [u8; 4],
}

/// The node property an animation channel targets.
#[derive(Debug, Clone, Copy, PartialEq, Eq, Structural)]
pub enum AnimProperty {
    Translation,
    Rotation,
    Scale,
}

/// Per-mesh summary shown in the preview.
#[derive(Debug, Clone)]
pub struct MeshInfo {
    pub name: String,
    pub vertex_count: usize,
    pub triangle_count: usize,
}

// ───────────────────────── PLY properties ─────────────────────────

/// PLY property metadata with its place in a binary vertex record.
#[derive(Debug, Clone)]
pub struct PlyPropertyInfo {
    pub name: String,
    pub prop_type: String,
    pub byte_offset: usize,
    pub byte_size: usize,
}

/// The byte size of a PLY scalar type name (4 for names it does not know).
pub open spec fn ply_type_size(t: Seq<char>) -> nat {
    if t == "float"@ || t == "float32"@ || t == "int"@ || t == "int32"@ || t == "uint"@ || t
        == "uint32"@ {
        4
    } else if t == "double"@ || t == "float64"@ || t == "int64"@ || t == "uint64"@ {
        8
    } else if t == "short"@ || t == "int16"@ || t == "uint16"@ || t == "ushort"@ {
        2
    } else if t == "char"@ || t == "int8"@ || t == "uint8"@ || t == "uchar"@ {
        1
    } else {
        4
    }
}

/// The byte offset of property `i`: the sizes of the ones before it.
pub open spec fn ply_offset(props: Seq<(String, String)>, i: int) -> nat
    decreases i,
{
    if i <= 0 {
        0
    } else {
        ply_offset(props, i - 1) + ply_type_size(props[i - 1].1@)
    }
}

fn type_size(t: &str) -> (r: usize)
    ensures
        r == ply_type_size(t@),
        1 <= r <= 8,
{
    let v = chars_of(t);
    let s = v.as_slice();
    if eq_str(s, "float") || eq_str(s, "float32") || eq_str(s, "int") || eq_str(s, "int32")
        || eq_str(s, "uint") || eq_str(s, "uint32") {
        4
    } else if eq_str(s, "double") || eq_str(s, "float64") || eq_str(s, "int64") || eq_str(
        s,
        "uint64",
    ) {
        8
    } else if eq_str(s, "short") || eq_str(s, "int16") || eq_str(s, "uint16") || eq_str(
        s,
        "ushort",
    ) {
        2
    } else if eq_str(s, "char") || eq_str(s, "int8") || eq_str(s, "uint8") || eq_str(s, "uchar") {
        1
    } else {
        4
    }
}

proof fn lemma_offset_bound(props: Seq<(String, String)>, i: int)
    requires
        0 <= i <= props.len(),
    ensures
        ply_offset(props, i) <= 8 * i,
    decreases i,
{
    if i > 0 {
        lemma_offset_bound(props, i - 1);
    }
}

/// The byte offset and size of each vertex property of a binary PLY record
/// (name, type), in order.
pub fn calculate_property_offsets(vertex_props: &[(String, String)]) -> (r: Vec<PlyPropertyInfo>)
    requires
        8 * vertex_props@.len() <= usize::MAX,
    ensures
        r@.len() == vertex_props@.len(),
        forall|i: int|
            0 <= i < r@.len() ==> (#[trigger] r@[i]).name@ == vertex_props@[i].0@ && r@[i].prop_type@
                == vertex_props@[i].1@ && r@[i].byte_offset == ply_offset(vertex_props@, i)
                && r@[i].byte_size == ply_type_size(vertex_props@[i].1@),
{
    let mut out: Vec<PlyPropertyInfo> = Vec::new();
    let mut offset: usize = 0;
    let mut i: usize = 0;
    while i < vertex_props.len()
        invariant
            i <= vertex_props@.len(),
            8 * vertex_props@.len() <= usize::MAX,
            out@.len() == i,
            offset == ply_offset(vertex_props@, i as int),
            forall|k: int|
                0 <= k < i ==> (#[trigger] out@[k]).name@ == vertex_props@[k].0@ && out@[k].prop_type@
                    == vertex_props@[k].1@ && out@[k].byte_offset == ply_offset(vertex_props@, k)
                    && out@[k].byte_size == ply_type_size(vertex_props@[k].1@),
        decreases vertex_props@.len() - i,
    {
        proof {
            lemma_offset_bound(vertex_props@, i as int);
        }
        let (name, prop_type) = &vertex_props[i];
        let size = type_size(prop_type.as_str());
        let info = PlyPropertyInfo {
            name: name.clone(),
            prop_type: prop_type.clone(),
            byte_offset: offset,
            byte_size: size,
        };
        out.push(info);
        offset = offset + size;
        i = i + 1;
    }
    out
}

/// The byte offset of the first property called `name`.
pub open spec fn property_offset(props: Seq<PlyPropertyInfo>, name: Seq<char>) -> Option<usize>
    decreases props.len(),
{
    if props.len() == 0 {
        None
    } else if props[0].name@ == name {
        Some(props[0].byte_offset)
    } else {
        property_offset(props.drop_first(), name)
    }
}

/// Find the byte offset of a named property.
pub fn find_property_offset(props: &[PlyPropertyInfo], name: &str) -> (r: Option<usize>)
    ensures
        r == property_offset(props@, name@),
{
    let nv = chars_of(name);
    let mut i: usize = 0;
    assert(props@.skip(0) =~= props@);
    while i < props.len()
        invariant
            i <= props@.len(),
            nv@ == name@,
            property_offset(props@, name@) == property_offset(props@.skip(i as int), name@),
        decreases props@.len() - i,
    {
        assert(props@.skip(i as int)[0] == props@[i as int]);
        assert(props@.skip(i as int).drop_first() =~= props@.skip(i + 1));
        let pv = chars_of(props[i].name.as_str());
        if seq_eq(pv.as_slice(), nv.as_slice()) {
            return Some(props[i].byte_offset);
        }
        i = i + 1;
    }
    None
}

/// Whether the vertex properties are those of a Gaussian Splatting PLY:
/// `f_dc_0`, or both `opacity` and `rot_0`.
pub open spec fn is_gaussian_splatting_spec(props: Seq<(String, String)>) -> bool {
    let has = |n: Seq<char>| exists|i: int| 0 <= i < props.len() && #[trigger] props[i].0@ == n;
    has("f_dc_0"@) || (has("opacity"@) && has("rot_0"@))
}

fn has_property(props: &[(String, String)], name: &str) -> (r: bool)
    ensures
        r == exists|i: int| 0 <= i < props@.len() && #[trigger] props@[i].0@ == name@,
{
    let nv = chars_of(name);
    let mut i: usize = 0;
    while i < props.len()
        invariant
            i <= props@.len(),
            nv@ == name@,
            forall|k: int| 0 <= k < i ==> props@[k].0@ != name@,
        decreases props@.len() - i,
    {
        let pv = chars_of(props[i].0.as_str());
        if seq_eq(pv.as_slice(), nv.as_slice()) {
            return true;
        }
        i = i + 1;
    }
    false
}

/// Whether a PLY file with these vertex properties holds Gaussian splats.
pub fn is_gaussian_splatting(props: &[(String, String)]) -> (r: bool)
    ensures
        r == is_gaussian_splatting_spec(props@),
{
    has_property(props, "f_dc_0") || (has_property(props, "opacity") && has_property(
        props,
        "rot_0",
    ))
}

/// The byte length of one binary vertex record: the end of the last
/// property, 0 without properties or for an ASCII file.
pub fn vertex_stride(infos: &[PlyPropertyInfo], is_binary: bool) -> (r: usize)
    requires
        infos@.len() > 0 ==> infos@.last().byte_offset + infos@.last().byte_size <= usize::MAX,
    ensures
        r == (if is_binary && infos@.len() > 0 {
            infos@.last().byte_offset + infos@.last().byte_size
        } else {
            0
        }),
{
    if is_binary && infos.len() > 0 {
        let last = &infos[infos.len() - 1];
        last.byte_offset + last.byte_size
    } else {
        0
    }
}

// ───────────────────────── PLY header ─────────────────────────

/// What the header of a PLY file declares.
#[derive(Debug, Clone)]
pub struct PlyHeader {
    pub vertex_count: usize,
    pub face_count: usize,
    pub is_binary_le: bool,
    pub is_binary_be: bool,
    /// (name, type) of each scalar vertex property, in order.
    pub vertex_props: Vec<(String, String)>,
}

/// The header read so far: vertex count, face count, little-endian,
/// big-endian, vertex properties (name, type), and whether the current
/// element is `vertex`.
pub type HeaderState = (usize, usize, bool, bool, Seq<(Seq<char>, Seq<char>)>, bool);

/// The count on an `element <kind> <count>` line (0 when it does not parse).
pub open spec fn element_count(t: Seq<char>) -> usize {
    let w = words(t, Separator::Whitespace);
    if w.len() > 2 {
        match parse_usize(w[2]) {
            Some(n) => n,
            None => 0,
        }
    } else {
        0
    }
}

/// Reading one header line.
pub open spec fn header_step(st: HeaderState, line: Seq<char>) -> HeaderState {
    let t = trim(line);
    if starts_with(t, "element vertex "@) {
        (element_count(t), st.1, st.2, st.3, st.4, true)
    } else if starts_with(t, "element face "@) {
        (st.0, element_count(t), st.2, st.3, st.4, false)
    } else if starts_with(t, "element "@) {
        (st.0, st.1, st.2, st.3, st.4, false)
    } else if starts_with(t, "property "@) && st.5 && !contains(t, "list"@) {
        let w = words(t, Separator::Whitespace);
        if w.len() >= 3 {
            (st.0, st.1, st.2, st.3, st.4.push((w[2], w[1])), st.5)
        } else {
            st
        }
    } else if starts_with(t, "format binary_little_endian"@) {
        (st.0, st.1, true, st.3, st.4, st.5)
    } else if starts_with(t, "format binary_big_endian"@) {
        (st.0, st.1, st.2, true, st.4, st.5)
    } else {
        st
    }
}

/// Reading the header lines in order from an empty state.
pub open spec fn header_scan(ls: Seq<Seq<char>>) -> HeaderState
    decreases ls.len(),
{
    if ls.len() == 0 {
        (0, 0, false, false, Seq::empty(), false)
    } else {
        header_step(header_scan(ls.drop_last()), ls.last())
    }
}

/// What a parsed header is for the contracts.
pub open spec fn header_view(h: PlyHeader) -> (usize, usize, bool, bool, Seq<(Seq<char>, Seq<char>)>) {
    (
        h.vertex_count,
        h.face_count,
        h.is_binary_le,
        h.is_binary_be,
        h.vertex_props@.map_values(|p: (String, String)| (p.0@, p.1@)),
    )
}

fn element_count_of(t: &[char]) -> (r: usize)
    ensures
        r == element_count(t@),
{
    let w = words_of(t, Separator::Whitespace);
    if w.len() > 2 {
        match parse_usize_chars(w[2].as_slice()) {
            Some(n) => n,
            None => 0,
        }
    } else {
        0
    }
}

/// Reads the header text of a PLY file (see `header_scan`).
pub fn parse_ply_header(text: &str) -> (h: PlyHeader)
    ensures
        ({
            let st = header_scan(lines(text@));
            header_view(h) == (st.0, st.1, st.2, st.3, st.4)
        }),
{
    let ls = lines_of(text);
    let mut vertex_count: usize = 0;
    let mut face_count: usize = 0;
    let mut le = false;
    let mut be = false;
    let mut props: Vec<(String, String)> = Vec::new();
    let mut in_vertex = false;
    let mut i: usize = 0;
    let ghost pv = |p: (String, String)| (p.0@, p.1@);
    assert(views(ls@).take(0) =~= Seq::<Seq<char>>::empty());
    while i < ls.len()
        invariant
            i <= ls@.len(),
            views(ls@) == lines(text@),
            pv == (|p: (String, String)| (p.0@, p.1@)),
            header_scan(views(ls@).take(i as int)) == (
                vertex_count,
                face_count,
                le,
                be,
                props@.map_values(pv),
                in_vertex,
            ),
        decreases ls@.len() - i,
    {
        assert(views(ls@).take(i + 1).drop_last() =~= views(ls@).take(i as int));
        assert(views(ls@).take(i + 1).last() == ls@[i as int]@);
        let t = trim_chars(ls[i].as_slice());
        let ts = t.as_slice();
        if starts_with_str(ts, "element vertex ") {
            vertex_count = element_count_of(ts);
            in_vertex = true;
        } else if starts_with_str(ts, "element face ") {
            face_count = element_count_of(ts);
            in_vertex = false;
        } else if starts_with_str(ts, "element ") {
            in_vertex = false;
        } else if starts_with_str(ts, "property ") && in_vertex && !contains_str(ts, "list") {
            let w = words_of(ts, Separator::Whitespace);
            if w.len() >= 3 {
                let p = (string_of(w[2].as_slice()), string_of(w[1].as_slice()));
                let ghost before = props@;
                props.push(p);
                assert(props@.map_values(pv) =~= before.map_values(pv).push((w@[2]@, w@[1]@)));
            }
        } else if starts_with_str(ts, "format binary_little_endian") {
            le = true;
        } else if starts_with_str(ts, "format binary_big_endian") {
            be = true;
        }
        i = i + 1;
    }
    assert(views(ls@).take(ls@.len() as int) =~= views(ls@));
    PlyHeader { vertex_count, face_count, is_binary_le: le, is_binary_be: be, vertex_props: props }
}

/// Whether `n` occurs in `h` at byte position `i`.
pub open spec fn bytes_at(h: Seq<u8>, n: Seq<u8>, i: int) -> bool {
    0 <= i && i + n.len() <= h.len() && h.subrange(i, i + n.len()) == n
}

/// The first byte position where `n` occurs in `h` (`slice::windows` +
/// `position`).
pub open spec fn find_bytes(h: Seq<u8>, n: Seq<u8>) -> Option<int> {
    if exists|i: int| bytes_at(h, n, i) {
        Some(choose|i: int| bytes_at(h, n, i) && forall|k: int| 0 <= k < i ==> !bytes_at(h, n, k))
    } else {
        None
    }
}

fn position_of(h: &[u8], n: &[u8]) -> (r: Option<usize>)
    requires
        n@.len() > 0,
    ensures
        r matches Some(i) ==> bytes_at(h@, n@, i as int) && forall|k: int|
            0 <= k < i ==> !bytes_at(h@, n@, k),
        r is None ==> forall|k: int| !bytes_at(h@, n@, k),
        r matches Some(i) ==> find_bytes(h@, n@) == Some(i as int),
        r is None ==> find_bytes(h@, n@) is None,
{
    let hl = h.len();
    let nl = n.len();
    if nl > hl {
        return None;
    }
    let last = hl - nl;
    let mut i: usize = 0;
    while i <= last
        invariant
            hl == h@.len(),
            nl == n@.len(),
            nl <= hl,
            last == hl - nl,
            i <= last + 1,
            forall|k: int| 0 <= k < i ==> !bytes_at(h@, n@, k),
        decreases last + 1 - i,
    {
        let mut j: usize = 0;
        let mut same = true;
        while j < nl
            invariant
                hl == h@.len(),
                nl == n@.len(),
                i + nl <= hl,
                j <= nl,
                same == forall|k: int| 0 <= k < j ==> h@[i + k] == n@[k],
            decreases nl - j,
        {
            if h[i + j] != n[j] {
                same = false;
            }
            j = j + 1;
        }
        if same {
            assert(h@.subrange(i as int, i + n@.len()) =~= n@);
            proof { lemma_first_position(h@, n@, i as int); }
            return Some(i);
        } else {
            assert(!bytes_at(h@, n@, i as int)) by {
                if bytes_at(h@, n@, i as int) {
                    let k = choose|k: int| 0 <= k < n@.len() && h@[i + k] != n@[k];
                    assert(h@.subrange(i as int, i + n@.len())[k] == h@[i + k]);
                }
            }
        }
        i = i + 1;
    }
    proof {
        assert forall|k: int| !bytes_at(h@, n@, k) by {
            if bytes_at(h@, n@, k) {
                assert(0 <= k < i);
            }
        }
    }
    None
}

proof fn lemma_first_position(h: Seq<u8>, n: Seq<u8>, i: int)
    requires
        bytes_at(h, n, i),
        forall|k: int| 0 <= k < i ==> !bytes_at(h, n, k),
    ensures
        find_bytes(h, n) == Some(i),
{
    let q = choose|q: int| bytes_at(h, n, q) && forall|k: int| 0 <= k < q ==> !bytes_at(h, n, k);
    assert(bytes_at(h, n, q));
    if q < i {
        assert(!bytes_at(h, n, q));
    } else if q > i {
        assert(!bytes_at(h, n, i));
    }
}

/// The name of `String::from_utf8_lossy`.
pub uninterp spec fn utf8_lossy(bytes: Seq<u8>) -> Seq<char>;

/// `String::from_utf8_lossy`: the text of a byte string, invalid sequences
/// replaced. On valid UTF-8 it is the decoding of the bytes.
#[verifier::external_body]
fn from_utf8_lossy(bytes: &[u8]) -> (r: String)
    ensures
        r@ == utf8_lossy(bytes@),
        vstd::utf8::valid_utf8(bytes@) ==> r@ == vstd::utf8::decode_utf8(bytes@),
{
    String::from_utf8_lossy(bytes).into_owned()
}

/// Where the header of a PLY file ends: after the first `end_header\n`, or
/// else after the first `end_header\r\n`.
pub open spec fn header_end(data: Seq<u8>) -> Option<int> {
    match find_bytes(data, "end_header\n"@.map_values(|c: char| c as u8)) {
        Some(p) => Some(p + 11),
        None => match find_bytes(data, "end_header\r\n"@.map_values(|c: char| c as u8)) {
            Some(p) => Some(p + 12),
            None => None,
        },
    }
}

/// The header of a PLY file: none without an `end_header` line; otherwise
/// the header text up to and including that line, read as text (lossily)
/// and parsed.
pub fn ply_header(data: &[u8]) -> (r: Option<PlyHeader>)
    ensures
        r is None <==> header_end(data@) is None,
        r matches Some(h) ==> header_end(data@) matches Some(end) && ({
            let st = header_scan(lines(utf8_lossy(data@.subrange(0, end))));
            header_view(h) == (st.0, st.1, st.2, st.3, st.4)
        }),
{
    match header_end_of(data) {
        Some(end) => {
            let head = slice_bytes(data, 0, end);
            let text = from_utf8_lossy(head.as_slice());
            Some(parse_ply_header(text.as_str()))
        },
        None => None,
    }
}

/// Where the PLY header ends, as `header_end`.
fn header_end_of(data: &[u8]) -> (r: Option<usize>)
    ensures
        r matches Some(e) ==> header_end(data@) == Some(e as int) && e <= data@.len(),
        r is None ==> header_end(data@) is None,
{
    let m1: [u8; 11] = [101, 110, 100, 95, 104, 101, 97, 100, 101, 114, 10];
    let m2: [u8; 12] = [101, 110, 100, 95, 104, 101, 97, 100, 101, 114, 13, 10];
    proof {
        reveal_strlit("end_header\n");
        reveal_strlit("end_header\r\n");
        assert(m1@ =~= "end_header\n"@.map_values(|c: char| c as u8));
        assert(m2@ =~= "end_header\r\n"@.map_values(|c: char| c as u8));
    }
    let dl = data.len();
    match position_of(data, &m1) {
        Some(p) => {
            assert(bytes_at(data@, m1@, p as int));
            assert(m1@.len() == 11);
            Some(p + 11)
        },
        None => match position_of(data, &m2) {
            Some(p) => {
                assert(bytes_at(data@, m2@, p as int));
                assert(m2@.len() == 12);
                Some(p + 12)
            },
            None => None,
        },
    }
}

fn slice_bytes(data: &[u8], lo: usize, hi: usize) -> (r: Vec<u8>)
    requires
        lo <= hi <= data@.len(),
    ensures
        r@ == data@.subrange(lo as int, hi as int),
{
    let mut r: Vec<u8> = Vec::new();
    let mut i: usize = lo;
    while i < hi
        invariant
            lo <= i <= hi <= data@.len(),
            r@ == data@.subrange(lo as int, i as int),
        decreases hi - i,
    {
        r.push(data[i]);
        assert(data@.subrange(lo as int, i + 1) =~= data@.subrange(lo as int, i as int).push(data@[i as int]));
        i = i + 1;
    }
    r
}

// ───────────────────────── binary words ─────────────────────────

/// The little-endian value of four bytes.
pub open spec fn le_u32(b0: u8, b1: u8, b2: u8, b3: u8) -> int {
    b0 + 256 * b1 + 65536 * b2 + 16777216 * b3
}

/// `u32::from_le_bytes` of the first four bytes.
pub fn read_u32_le(data: &[u8]) -> (r: u32)
    requires
        data@.len() >= 4,
    ensures
        r == le_u32(data@[0], data@[1], data@[2], data@[3]),
{
    (data[0] as u32) + 256 * (data[1] as u32) + 65536 * (data[2] as u32) + 16777216 * (
    data[3] as u32)
}

/// Whether an STL file is binary: longer than the 84-byte header, and either
/// not starting with `solid` or exactly as long as its triangle count says
/// (84 bytes plus 50 per triangle).
pub open spec fn stl_is_binary_spec(data: Seq<u8>) -> bool {
    data.len() > 84 && (data.subrange(0, 5) != "solid"@.map_values(|c: char| c as u8) || data.len()
        == 84 + 50 * le_u32(data[80], data[81], data[82], data[83]))
}

/// Whether the bytes of an STL file are the binary format.
pub fn stl_is_binary(data: &[u8]) -> (r: bool)
    ensures
        r == stl_is_binary_spec(data@),
{
    if data.len() <= 84 {
        return false;
    }
    let solid: [u8; 5] = [115, 111, 108, 105, 100];
    proof {
        reveal_strlit("solid");
        assert(solid@ =~= "solid"@.map_values(|c: char| c as u8));
    }
    let starts_solid = data[0] == solid[0] && data[1] == solid[1] && data[2] == solid[2]
        && data[3] == solid[3] && data[4] == solid[4];
    assert(starts_solid == (data@.subrange(0, 5) =~= solid@));
    let count = read_u32_le(&[data[80], data[81], data[82], data[83]]);
    !starts_solid || (data.len() as u64) == 84 + 50 * (count as u64)
}


// ───────────────────────── PLY topology ─────────────────────────

/// The edges of a polygon's fan triangulation: for each triangle
/// (v0, vi, vi+1), its three edges in turn.
pub open spec fn fan(idx: Seq<usize>) -> Seq<(usize, usize)>
    decreases idx.len(),
{
    if idx.len() < 3 {
        Seq::empty()
    } else {
        let n = idx.len() as int;
        fan(idx.drop_last()) + seq![(idx[0], idx[n - 2]), (idx[n - 2], idx[n - 1]), (idx[n - 1], idx[0])]
    }
}

fn push_fan(out: &mut Vec<(usize, usize)>, idx: &Vec<usize>)
    ensures
        final(out)@ == old(out)@ + fan(idx@),
{
    let ghost o0 = out@;
    if idx.len() < 3 {
        assert(out@ =~= o0 + fan(idx@));
        return;
    }
    let mut i: usize = 1;
    assert(fan(idx@.take(2)) =~= Seq::<(usize, usize)>::empty());
    assert(out@ =~= o0 + fan(idx@.take(2)));
    let last = idx.len() - 1;
    while i < last
        invariant
            last == idx@.len() - 1,
            idx@.len() >= 3,
            1 <= i <= last,
            out@ == o0 + fan(idx@.take(i + 1)),
        decreases idx@.len() - i,
    {
        let a = idx[0];
        let b = idx[i];
        let c = idx[i + 1];
        out.push((a, b));
        out.push((b, c));
        out.push((c, a));
        assert(idx@.take(i + 2).drop_last() =~= idx@.take(i + 1));
        assert(out@ =~= o0 + fan(idx@.take(i + 2)));
        i = i + 1;
    }
    assert(idx@.take(idx@.len() as int) =~= idx@);
}

/// Where the binary vertex records end: each of `n` records of `stride`
/// bytes is read while it fits in the data.
pub open spec fn vertex_block_end(len: int, off: int, n: nat, stride: int) -> int
    decreases n,
{
    if n == 0 || off + stride > len {
        off
    } else {
        vertex_block_end(len, off + stride, (n - 1) as nat, stride)
    }
}

/// How many binary vertex records fit, read from `off`.
pub open spec fn vertices_read(len: int, off: int, n: nat, stride: int) -> nat
    decreases n,
{
    if n == 0 || off + stride > len {
        0
    } else {
        1 + vertices_read(len, off + stride, (n - 1) as nat, stride)
    }
}

/// The binary vertex records from `start`: where they end and how many fit.
pub fn binary_vertex_block(data_len: usize, start: usize, vertex_count: usize, stride: usize) -> (r: (
    usize,
    usize,
))
    requires
        start <= data_len,
        data_len + stride <= usize::MAX,
    ensures
        r.0 == vertex_block_end(data_len as int, start as int, vertex_count as nat, stride as int),
        r.1 == vertices_read(data_len as int, start as int, vertex_count as nat, stride as int),
        r.0 <= data_len,
{
    let mut off = start;
    let mut read: usize = 0;
    let mut k: usize = 0;
    while k < vertex_count
        invariant
            k <= vertex_count,
            read <= k,
            off <= data_len,
            data_len + stride <= usize::MAX,
            vertex_block_end(data_len as int, start as int, vertex_count as nat, stride as int)
                == vertex_block_end(data_len as int, off as int, (vertex_count - k) as nat, stride as int),
            vertices_read(data_len as int, start as int, vertex_count as nat, stride as int) == read
                + vertices_read(data_len as int, off as int, (vertex_count - k) as nat, stride as int),
        decreases vertex_count - k,
    {
        if off + stride > data_len {
            return (off, read);
        }
        off = off + stride;
        read = read + 1;
        k = k + 1;
    }
    (off, read)
}

/// The vertex index stored as a little-endian word at byte `o`.
pub open spec fn le_word(data: Seq<u8>, o: int) -> usize {
    le_u32(data[o], data[o + 1], data[o + 2], data[o + 3]) as usize
}

/// The `count` indices of a binary face list, from byte `o`.
pub open spec fn face_indices(data: Seq<u8>, o: int, count: nat) -> Seq<usize> {
    Seq::new(count, |k: int| le_word(data, o + 4 * k))
}

/// The edges of up to `n` binary faces from byte `off`: each face is a
/// one-byte index count and that many little-endian words; reading stops
/// at the end of the data or at a face that does not fit.
pub open spec fn face_scan(data: Seq<u8>, off: int, n: nat) -> Seq<(usize, usize)>
    decreases n,
{
    if n == 0 || off < 0 || off >= data.len() {
        Seq::empty()
    } else {
        let count = data[off] as int;
        let o = off + 1;
        if o + count * 4 > data.len() {
            Seq::empty()
        } else {
            fan(face_indices(data, o, count as nat)) + face_scan(data, o + count * 4, (n - 1) as nat)
        }
    }
}

fn read_word_at(data: &[u8], o: usize) -> (r: usize)
    requires
        o + 4 <= data@.len(),
    ensures
        r == le_word(data@, o as int),
{
    let w: u32 = (data[o] as u32) + 256 * (data[o + 1] as u32) + 65536 * (data[o + 2] as u32)
        + 16777216 * (data[o + 3] as u32);
    w as usize
}

/// The edges of the binary face list that starts at byte `start`.
pub fn binary_face_edges(data: &[u8], start: usize, face_count: usize) -> (r: Vec<(usize, usize)>)
    ensures
        r@ == face_scan(data@, start as int, face_count as nat),
{
    let mut out: Vec<(usize, usize)> = Vec::new();
    let mut off = start;
    let mut k: usize = 0;
    let len = data.len();
    while k < face_count
        invariant
            k <= face_count,
            len == data@.len(),
            out@ + face_scan(data@, off as int, (face_count - k) as nat) == face_scan(
                data@,
                start as int,
                face_count as nat,
            ),
        decreases face_count - k,
    {
        if off >= len {
            assert(out@ =~= out@ + face_scan(data@, off as int, (face_count - k) as nat));
            return out;
        }
        let count = data[off] as usize;
        let o = off + 1;
        if count * 4 > len - o {
            assert(out@ =~= out@ + face_scan(data@, off as int, (face_count - k) as nat));
            return out;
        }
        let mut idx: Vec<usize> = Vec::new();
        let mut j: usize = 0;
        while j < count
            invariant
                j <= count,
                o + count * 4 <= len,
                len == data@.len(),
                idx@ == face_indices(data@, o as int, count as nat).take(j as int),
            decreases count - j,
        {
            idx.push(read_word_at(data, o + 4 * j));
            assert(idx@ =~= face_indices(data@, o as int, count as nat).take(j + 1));
            j = j + 1;
        }
        assert(idx@ =~= face_indices(data@, o as int, count as nat));
        let ghost before = out@;
        push_fan(&mut out, &idx);
        assert(before + face_scan(data@, off as int, (face_count - k) as nat) =~= out@ + face_scan(
            data@,
            o + count * 4,
            (face_count - k - 1) as nat,
        ));
        off = o + count * 4;
        k = k + 1;
    }
    assert(out@ =~= out@ + face_scan(data@, off as int, 0));
    out
}

/// The usize values among `ps` that parse, in order.
pub open spec fn parsed_indices(ps: Seq<Seq<char>>) -> Seq<usize>
    decreases ps.len(),
{
    if ps.len() == 0 {
        Seq::empty()
    } else {
        let prev = parsed_indices(ps.drop_last());
        match parse_usize(ps.last()) {
            Some(v) => prev.push(v),
            None => prev,
        }
    }
}

/// The count a face line starts with (0 when it does not parse).
pub open spec fn face_count_of(parts: Seq<Seq<char>>) -> int {
    match parse_usize(parts[0]) {
        Some(c) => c as int,
        None => 0,
    }
}

/// The edges of one ASCII face line `n i1 .. in`: for a polygon of three
/// or more vertices whose indices are all on the line, the fan of the
/// indices that parse.
pub open spec fn ascii_face(line: Seq<char>) -> Seq<(usize, usize)> {
    let parts = words(trim(line), Separator::Whitespace);
    if parts.len() == 0 {
        Seq::empty()
    } else {
        let count = face_count_of(parts);
        if count >= 3 && parts.len() >= count + 1 {
            fan(parsed_indices(parts.subrange(1, count + 1)))
        } else {
            Seq::empty()
        }
    }
}

/// A face line the reader can take: its count is not the largest usize
/// (for which `count + 1` overflows).
pub open spec fn ascii_face_ok(line: Seq<char>) -> bool {
    let parts = words(trim(line), Separator::Whitespace);
    parts.len() > 0 ==> face_count_of(parts) < usize::MAX
}

/// The edges of the ASCII face lines, in order.
pub open spec fn ascii_faces(ls: Seq<Seq<char>>) -> Seq<(usize, usize)>
    decreases ls.len(),
{
    if ls.len() == 0 {
        Seq::empty()
    } else {
        ascii_faces(ls.drop_last()) + ascii_face(ls.last())
    }
}

/// How many ASCII vertex lines hold at least three values.
pub open spec fn ascii_vertex_count(ls: Seq<Seq<char>>) -> nat
    decreases ls.len(),
{
    if ls.len() == 0 {
        0
    } else {
        ascii_vertex_count(ls.drop_last()) + if words(trim(ls.last()), Separator::Whitespace).len()
            >= 3 {
            1nat
        } else {
            0nat
        }
    }
}

/// The body lines an ASCII PLY reads: the vertex lines, then the face
/// lines, each as far as there are lines.
pub open spec fn vertex_lines(ls: Seq<Seq<char>>, vertex_count: nat) -> Seq<Seq<char>> {
    ls.take(if vertex_count < ls.len() {
        vertex_count as int
    } else {
        ls.len() as int
    })
}

pub open spec fn face_lines(ls: Seq<Seq<char>>, vertex_count: nat, face_count: nat) -> Seq<Seq<char>> {
    let skip = vertex_lines(ls, vertex_count).len();
    ls.subrange(
        skip as int,
        if skip + face_count < ls.len() {
            (skip + face_count) as int
        } else {
            ls.len() as int
        },
    )
}

fn parse_face_line(line: &[char], out: &mut Vec<(usize, usize)>)
    requires
        ascii_face_ok(line@),
    ensures
        final(out)@ == old(out)@ + ascii_face(line@),
{
    let t = trim_chars(line);
    let parts = words_of(t.as_slice(), Separator::Whitespace);
    if parts.len() == 0 {
        assert(out@ =~= old(out)@ + ascii_face(line@));
        return;
    }
    assert(views(parts@)[0] == parts@[0]@);
    let count = match parse_usize_chars(parts[0].as_slice()) {
        Some(c) => c,
        None => 0,
    };
    if count >= 3 && parts.len() >= count + 1 {
        let mut idx: Vec<usize> = Vec::new();
        let mut j: usize = 1;
        let ghost ps = views(parts@).subrange(1, count + 1);
        assert(ps.take(0) =~= Seq::<Seq<char>>::empty());
        while j <= count
            invariant
                1 <= j <= count + 1,
                count + 1 <= parts@.len(),
                ps == views(parts@).subrange(1, count + 1),
                idx@ == parsed_indices(ps.take(j - 1)),
            decreases count + 1 - j,
        {
            assert(ps.take(j as int).drop_last() =~= ps.take(j - 1));
            assert(ps.take(j as int).last() == parts@[j as int]@);
            match parse_usize_chars(parts[j].as_slice()) {
                Some(v) => idx.push(v),
                None => {},
            }
            j = j + 1;
        }
        assert(ps.take(count as int) =~= ps);
        push_fan(out, &idx);
    } else {
        assert(out@ =~= old(out)@ + ascii_face(line@));
    }
}

/// What the ASCII body of a standard PLY holds: the number of vertex lines
/// with at least three values, and the edges of the face lines.
pub fn ascii_body_topology(body: &str, vertex_count: usize, face_count: usize) -> (r: (
    usize,
    Vec<(usize, usize)>,
))
    requires
        forall|i: int|
            0 <= i < face_lines(lines(body@), vertex_count as nat, face_count as nat).len()
                ==> ascii_face_ok(#[trigger] face_lines(lines(body@), vertex_count as nat, face_count as nat)[i]),
    ensures
        r.0 == ascii_vertex_count(vertex_lines(lines(body@), vertex_count as nat)),
        r.1@ == ascii_faces(face_lines(lines(body@), vertex_count as nat, face_count as nat)),
{
    let ls = lines_of(body);
    let ghost all = views(ls@);
    let n = ls.len();
    let skip = if vertex_count < n {
        vertex_count
    } else {
        n
    };
    let mut verts: usize = 0;
    let mut i: usize = 0;
    assert(all.take(0) =~= Seq::<Seq<char>>::empty());
    while i < skip
        invariant
            i <= skip <= n == all.len(),
            all == views(ls@),
            verts <= i,
            verts == ascii_vertex_count(all.take(i as int)),
        decreases skip - i,
    {
        assert(all.take(i + 1).drop_last() =~= all.take(i as int));
        assert(all.take(i + 1).last() == ls@[i as int]@);
        let t = trim_chars(ls[i].as_slice());
        let parts = words_of(t.as_slice(), Separator::Whitespace);
        if parts.len() >= 3 {
            verts = verts + 1;
        }
        i = i + 1;
    }
    let stop = if face_count < n - skip {
        skip + face_count
    } else {
        n
    };
    let ghost fl = all.subrange(skip as int, stop as int);
    assert(fl == face_lines(lines(body@), vertex_count as nat, face_count as nat));
    let mut edges: Vec<(usize, usize)> = Vec::new();
    let mut j: usize = skip;
    assert(fl.take(0) =~= Seq::<Seq<char>>::empty());
    while j < stop
        invariant
            skip <= j <= stop <= n == all.len(),
            all == views(ls@),
            fl == all.subrange(skip as int, stop as int),
            forall|q: int| 0 <= q < fl.len() ==> ascii_face_ok(#[trigger] fl[q]),
            edges@ == ascii_faces(fl.take(j - skip)),
        decreases stop - j,
    {
        assert(fl.take(j - skip + 1).drop_last() =~= fl.take(j - skip));
        assert(fl.take(j - skip + 1).last() == ls@[j as int]@);
        assert(fl[j - skip] == ls@[j as int]@);
        parse_face_line(ls[j].as_slice(), &mut edges);
        j = j + 1;
    }
    assert(fl.take(stop - skip) =~= fl);
    (verts, edges)
}


/// The vertex properties (name, type) that a header declares.
pub open spec fn prop_names_has(ps: Seq<(Seq<char>, Seq<char>)>, n: Seq<char>) -> bool {
    exists|i: int| 0 <= i < ps.len() && #[trigger] ps[i].0 == n
}

/// Whether declared properties are those of a Gaussian Splatting PLY.
pub open spec fn splat_props(ps: Seq<(Seq<char>, Seq<char>)>) -> bool {
    prop_names_has(ps, "f_dc_0"@) || (prop_names_has(ps, "opacity"@) && prop_names_has(ps, "rot_0"@))
}

/// The byte length of a binary vertex record with these properties.
pub open spec fn record_size(ps: Seq<(Seq<char>, Seq<char>)>) -> nat
    decreases ps.len(),
{
    if ps.len() == 0 {
        0
    } else {
        record_size(ps.drop_last()) + ply_type_size(ps.last().1)
    }
}

pub open spec fn prop_views(props: Seq<(String, String)>) -> Seq<(Seq<char>, Seq<char>)> {
    props.map_values(|p: (String, String)| (p.0@, p.1@))
}

proof fn lemma_record_size(props: Seq<(String, String)>, i: int)
    requires
        0 <= i <= props.len(),
    ensures
        ply_offset(props, i) == record_size(prop_views(props).take(i)),
    decreases i,
{
    if i > 0 {
        lemma_record_size(props, i - 1);
        assert(prop_views(props).take(i).drop_last() =~= prop_views(props).take(i - 1));
    }
}

proof fn lemma_splat_props(props: Seq<(String, String)>)
    ensures
        is_gaussian_splatting_spec(props) == splat_props(prop_views(props)),
{
    let pv = prop_views(props);
    assert forall|n: Seq<char>|
        (exists|i: int| 0 <= i < props.len() && #[trigger] props[i].0@ == n) == prop_names_has(pv, n) by {
        if exists|i: int| 0 <= i < props.len() && #[trigger] props[i].0@ == n {
            let i = choose|i: int| 0 <= i < props.len() && #[trigger] props[i].0@ == n;
            assert(pv[i].0 == n);
        }
        if prop_names_has(pv, n) {
            let i = choose|i: int| 0 <= i < pv.len() && #[trigger] pv[i].0 == n;
            assert(props[i].0@ == n);
        }
    }
}

/// The header's lines, read as text.
pub open spec fn ply_header_state(data: Seq<u8>, end: int) -> HeaderState {
    header_scan(lines(utf8_lossy(data.subrange(0, end))))
}

/// The body's lines, read as text.
pub open spec fn ply_body(data: Seq<u8>, end: int) -> Seq<Seq<char>> {
    lines(utf8_lossy(data.subrange(end, data.len() as int)))
}

/// What the PLY reader can take without overflow: a header whose records
/// fit beside the data, and face lines whose counts leave room for one more.
pub open spec fn ply_topology_ok(data: Seq<u8>) -> bool {
    match header_end(data) {
        None => true,
        Some(end) => {
            let st = ply_header_state(data, end);
            &&& 8 * st.4.len() <= usize::MAX
            &&& data.len() + record_size(st.4) <= usize::MAX
            &&& forall|i: int|
                0 <= i < face_lines(ply_body(data, end), st.0 as nat, st.1 as nat).len() ==> ascii_face_ok(
                    #[trigger] face_lines(ply_body(data, end), st.0 as nat, st.1 as nat)[i],
                )
        },
    }
}

/// What the PLY reader makes of a file, apart from coordinates: none
/// without a header end; otherwise the mesh name (the path after its last
/// `/`), the vertex count, the triangle count (a third of the edges) and
/// the wireframe edges. Gaussian splats have no faces; a binary file reads
/// the records that fit; an ASCII file reads its vertex lines, then its
/// face lines.
pub open spec fn ply_topology_spec(path: Seq<char>, data: Seq<u8>) -> Option<
    (Seq<char>, nat, nat, Seq<(usize, usize)>),
> {
    match header_end(data) {
        None => None,
        Some(end) => {
            let st = ply_header_state(data, end);
            let binary = st.2 || st.3;
            let stride: int = if binary {
                record_size(st.4) as int
            } else {
                0
            };
            let name = after_last(path, '/');
            let body = ply_body(data, end);
            if splat_props(st.4) {
                let n = if binary {
                    vertices_read(data.len() as int, end, st.0 as nat, stride)
                } else {
                    vertex_lines(body, st.0 as nat).len()
                };
                Some((name, n, 0, Seq::empty()))
            } else if binary {
                let edges = face_scan(
                    data,
                    vertex_block_end(data.len() as int, end, st.0 as nat, stride),
                    st.1 as nat,
                );
                Some(
                    (
                        name,
                        vertices_read(data.len() as int, end, st.0 as nat, stride),
                        edges.len() / 3,
                        edges,
                    ),
                )
            } else {
                let edges = ascii_faces(face_lines(body, st.0 as nat, st.1 as nat));
                Some((name, ascii_vertex_count(vertex_lines(body, st.0 as nat)), edges.len() / 3, edges))
            }
        },
    }
}

/// The body of a PLY file as lines of text.
fn body_lines(data: &[u8], end: usize) -> (r: Vec<Vec<char>>)
    requires
        end <= data@.len(),
    ensures
        views(r@) == ply_body(data@, end as int),
{
    let bodyb = slice_bytes(data, end, data.len());
    let body = from_utf8_lossy(bodyb.as_slice());
    lines_of(body.as_str())
}

/// The body of a PLY file as text.
fn body_text(data: &[u8], end: usize) -> (r: String)
    requires
        end <= data@.len(),
    ensures
        lines(r@) == ply_body(data@, end as int),
{
    let bodyb = slice_bytes(data, end, data.len());
    from_utf8_lossy(bodyb.as_slice())
}

/// The header of a PLY file and the record size it declares.
fn header_and_stride(data: &[u8], end: usize) -> (r: (PlyHeader, usize, bool, bool))
    requires
        end <= data@.len(),
        8 * ply_header_state(data@, end as int).4.len() <= usize::MAX,
        data@.len() + record_size(ply_header_state(data@, end as int).4) <= usize::MAX,
    ensures
        ({
            let st = ply_header_state(data@, end as int);
            &&& header_view(r.0) == (st.0, st.1, st.2, st.3, st.4)
            &&& r.2 == (st.2 || st.3)
            &&& r.1 == (if r.2 {
                record_size(st.4)
            } else {
                0
            })
            &&& r.3 == splat_props(st.4)
            &&& data@.len() + r.1 <= usize::MAX
        }),
{
    let head = slice_bytes(data, 0, end);
    let text = from_utf8_lossy(head.as_slice());
    let h = parse_ply_header(text.as_str());
    let ghost st = ply_header_state(data@, end as int);
    assert(prop_views(h.vertex_props@) == st.4);
    let is_binary = h.is_binary_le || h.is_binary_be;
    let splat = is_gaussian_splatting(h.vertex_props.as_slice());
    proof {
        lemma_splat_props(h.vertex_props@);
        lemma_record_size(h.vertex_props@, h.vertex_props@.len() as int);
        assert(prop_views(h.vertex_props@).take(h.vertex_props@.len() as int) =~= st.4);
    }
    let infos = calculate_property_offsets(h.vertex_props.as_slice());
    proof {
        let n = h.vertex_props@.len() as int;
        if n > 0 {
            assert(ply_offset(h.vertex_props@, n) == ply_offset(h.vertex_props@, n - 1) + ply_type_size(
                h.vertex_props@[n - 1].1@,
            ));
        }
    }
    let stride = vertex_stride(infos.as_slice(), is_binary);
    (h, stride, is_binary, splat)
}

/// The mesh summary and wireframe edges of a PLY file.
#[verifier::rlimit(40)]
pub fn ply_topology(file_path: &str, data: &[u8]) -> (r: Option<(MeshInfo, Vec<(usize, usize)>)>)
    requires
        ply_topology_ok(data@),
    ensures
        r is None <==> ply_topology_spec(file_path@, data@) is None,
        r matches Some((m, e)) ==> ply_topology_spec(file_path@, data@) == Some(
            (m.name@, m.vertex_count as nat, m.triangle_count as nat, e@),
        ),
{
    let end = match header_end_of(data) {
        Some(e) => e,
        None => return None,
    };
    let ghost st = ply_header_state(data@, end as int);
    let ghost body = ply_body(data@, end as int);
    let (h, stride, is_binary, splat) = header_and_stride(data, end);
    let pv = chars_of(file_path);
    let namev = after_last_char(pv.as_slice(), '/');
    let name = string_of(namev.as_slice());
    let dl = data.len();
    if splat {
        let count = if is_binary {
            let (_, read) = binary_vertex_block(dl, end, h.vertex_count, stride);
            read
        } else {
            let ls = body_lines(data, end);
            if h.vertex_count < ls.len() {
                h.vertex_count
            } else {
                ls.len()
            }
        };
        let e: Vec<(usize, usize)> = Vec::new();
        assert(e@ =~= Seq::<(usize, usize)>::empty());
        return Some((MeshInfo { name, vertex_count: count, triangle_count: 0 }, e));
    }
    if is_binary {
        let (vend, read) = binary_vertex_block(dl, end, h.vertex_count, stride);
        let edges = binary_face_edges(data, vend, h.face_count);
        let tris = edges.len() / 3;
        Some((MeshInfo { name, vertex_count: read, triangle_count: tris }, edges))
    } else {
        let body_s = body_text(data, end);
        let (verts, edges) = ascii_body_topology(body_s.as_str(), h.vertex_count, h.face_count);
        let tris = edges.len() / 3;
        Some((MeshInfo { name, vertex_count: verts, triangle_count: tris }, edges))
    }
}


/// Whether a face line can be read (see `ascii_face_ok`).
fn face_line_ok(line: &[char]) -> (r: bool)
    ensures
        r == ascii_face_ok(line@),
{
    let t = trim_chars(line);
    let parts = words_of(t.as_slice(), Separator::Whitespace);
    if parts.len() == 0 {
        return true;
    }
    assert(views(parts@)[0] == parts@[0]@);
    match parse_usize_chars(parts[0].as_slice()) {
        Some(c) => c < usize::MAX,
        None => true,
    }
}

/// The byte length of a binary vertex record with these properties.
fn record_size_of(props: &Vec<(String, String)>) -> (r: usize)
    requires
        8 * props@.len() <= usize::MAX,
    ensures
        r == record_size(prop_views(props@)),
{
    let mut r: usize = 0;
    let mut i: usize = 0;
    while i < props.len()
        invariant
            i <= props@.len(),
            8 * props@.len() <= usize::MAX,
            r == record_size(prop_views(props@).take(i as int)),
            r <= 8 * i,
        decreases props@.len() - i,
    {
        assert(prop_views(props@).take(i + 1).drop_last() =~= prop_views(props@).take(i as int));
        let sz = type_size(props[i].1.as_str());
        r = r + sz;
        i = i + 1;
    }
    assert(prop_views(props@).take(props@.len() as int) =~= prop_views(props@));
    r
}

/// Whether every one of the lines can be read as a face line.
pub open spec fn faces_ok(fl: Seq<Seq<char>>) -> bool {
    forall|i: int| 0 <= i < fl.len() ==> ascii_face_ok(#[trigger] fl[i])
}

/// Whether the lines of `ls` from `lo` up to `hi` can all be read as face
/// lines.
fn face_lines_ok(ls: &Vec<Vec<char>>, lo: usize, hi: usize) -> (r: bool)
    requires
        lo <= hi <= ls@.len(),
    ensures
        r == faces_ok(views(ls@).subrange(lo as int, hi as int)),
{
    let ghost fl = views(ls@).subrange(lo as int, hi as int);
    let mut i: usize = lo;
    while i < hi
        invariant
            lo <= i <= hi <= ls@.len(),
            fl == views(ls@).subrange(lo as int, hi as int),
            forall|k: int| 0 <= k < i - lo ==> ascii_face_ok(#[trigger] fl[k]),
        decreases hi - i,
    {
        assert(fl[i - lo] == ls@[i as int]@);
        if !face_line_ok(ls[i].as_slice()) {
            return false;
        }
        i = i + 1;
    }
    true
}

/// Whether the PLY reader can take the file (see `ply_topology_ok`).
#[verifier::rlimit(40)]
pub fn ply_topology_ok_of(data: &[u8]) -> (r: bool)
    ensures
        r == ply_topology_ok(data@),
{
    let end = match header_end_of(data) {
        Some(e) => e,
        None => return true,
    };
    let head = slice_bytes(data, 0, end);
    let text = from_utf8_lossy(head.as_slice());
    let h = parse_ply_header(text.as_str());
    let ghost st = ply_header_state(data@, end as int);
    assert(prop_views(h.vertex_props@) == st.4);
    assert(h.vertex_count == st.0 && h.face_count == st.1);
    if h.vertex_props.len() > usize::MAX / 8 {
        return false;
    }
    let rs = record_size_of(&h.vertex_props);
    if rs > usize::MAX - data.len() {
        return false;
    }
    let ls = body_lines(data, end);
    let ghost body = ply_body(data@, end as int);
    let skip = if h.vertex_count < ls.len() {
        h.vertex_count
    } else {
        ls.len()
    };
    let stop = if h.face_count < ls.len() - skip {
        skip + h.face_count
    } else {
        ls.len()
    };
    assert(face_lines(body, st.0 as nat, st.1 as nat) =~= body.subrange(skip as int, stop as int));
    face_lines_ok(&ls, skip, stop)
}

/// The PLY reader on any file: none when it cannot take the file (see
/// `ply_topology_ok`), else what `ply_topology` gives.
pub fn ply_topology_checked(file_path: &str, data: &[u8]) -> (r: Option<
    Option<(MeshInfo, Vec<(usize, usize)>)>,
>)
    ensures
        r is None <==> !ply_topology_ok(data@),
        r matches Some(t) ==> (t is None <==> ply_topology_spec(file_path@, data@) is None),
        r matches Some(Some((m, e))) ==> ply_topology_spec(file_path@, data@) == Some(
            (m.name@, m.vertex_count as nat, m.triangle_count as nat, e@),
        ),
{
    if !ply_topology_ok_of(data) {
        return None;
    }
    Some(ply_topology(file_path, data))
}

// ───────────────────────── STL topology ─────────────────────────

/// The wireframe edges of `n` separate triangles, vertices numbered in
/// order.
pub open spec fn tri_edges(n: nat) -> Seq<(usize, usize)>
    decreases n,
{
    if n == 0 {
        Seq::empty()
    } else {
        let b = 3 * (n - 1);
        tri_edges((n - 1) as nat) + seq![
            (b as usize, (b + 1) as usize),
            ((b + 1) as usize, (b + 2) as usize),
            ((b + 2) as usize, b as usize),
        ]
    }
}

/// How many of the declared binary triangles fit in the data: 50-byte
/// records after the 84-byte header.
pub open spec fn stl_triangles_read(len: int, declared: nat) -> nat {
    let fit = if len >= 84 {
        (len - 84) / 50
    } else {
        0
    };
    if declared < fit {
        declared
    } else {
        fit as nat
    }
}

/// Reading one line of an ASCII STL: (triangles, vertices pending). A
/// `vertex` line with three coordinates adds a pending vertex; `endfacet`
/// with exactly three pending makes a triangle.
pub open spec fn stl_step(st: (nat, nat), line: Seq<char>) -> (nat, nat) {
    let t = trim(line);
    if starts_with(t, "vertex "@) {
        if words(t, Separator::Whitespace).len() >= 4 {
            (st.0, st.1 + 1)
        } else {
            st
        }
    } else if t == "endfacet"@ && st.1 == 3 {
        (st.0 + 1, 0)
    } else {
        st
    }
}

pub open spec fn stl_scan(ls: Seq<Seq<char>>) -> (nat, nat)
    decreases ls.len(),
{
    if ls.len() == 0 {
        (0, 0)
    } else {
        stl_step(stl_scan(ls.drop_last()), ls.last())
    }
}

/// How many triangles an STL file holds: for a binary file those of the
/// declared ones that fit; for an ASCII file its complete facets.
pub open spec fn stl_triangles(data: Seq<u8>) -> nat {
    if stl_is_binary_spec(data) {
        stl_triangles_read(data.len() as int, le_u32(data[80], data[81], data[82], data[83]) as nat)
    } else {
        stl_scan(lines(utf8_lossy(data))).0
    }
}

fn push_tri_edges(out: &mut Vec<(usize, usize)>, n: usize)
    requires
        old(out)@ == tri_edges((n - 1) as nat),
        n >= 1,
        3 * n <= usize::MAX,
    ensures
        final(out)@ == tri_edges(n as nat),
{
    let b = 3 * (n - 1);
    out.push((b, b + 1));
    out.push((b + 1, b + 2));
    out.push((b + 2, b));
    assert(out@ =~= tri_edges(n as nat));
}

fn stl_ascii_triangles(data: &[u8]) -> (r: usize)
    ensures
        r == stl_scan(lines(utf8_lossy(data@))).0,
        3 * r <= usize::MAX,
{
    let text = from_utf8_lossy(data);
    let ls = lines_of(text.as_str());
    let ghost all = views(ls@);
    let mut tris: usize = 0;
    let mut pending: usize = 0;
    let mut i: usize = 0;
    assert(all.take(0) =~= Seq::<Seq<char>>::empty());
    while i < ls.len()
        invariant
            i <= ls@.len(),
            all == views(ls@),
            all == lines(utf8_lossy(data@)),
            4 * tris + pending <= i,
            (tris as nat, pending as nat) == stl_scan(all.take(i as int)),
        decreases ls@.len() - i,
    {
        assert(all.take(i + 1).drop_last() =~= all.take(i as int));
        assert(all.take(i + 1).last() == ls@[i as int]@);
        let t = trim_chars(ls[i].as_slice());
        if starts_with_str(t.as_slice(), "vertex ") {
            let w = words_of(t.as_slice(), Separator::Whitespace);
            if w.len() >= 4 {
                pending = pending + 1;
            }
        } else if eq_str(t.as_slice(), "endfacet") && pending == 3 {
            tris = tris + 1;
            pending = 0;
        }
        i = i + 1;
    }
    assert(all.take(ls@.len() as int) =~= all);
    tris
}

/// The mesh summary and wireframe edges of an STL file: its triangles,
/// three vertices each, and each triangle's three edges.
pub fn stl_topology(file_path: &str, data: &[u8]) -> (r: (MeshInfo, Vec<(usize, usize)>))
    ensures
        r.0.name@ == after_last(file_path@, '/'),
        r.0.triangle_count == stl_triangles(data@),
        r.0.vertex_count == 3 * stl_triangles(data@),
        r.1@ == tri_edges(stl_triangles(data@)),
{
    let binary = stl_is_binary(data);
    let n: usize = if binary {
        let declared = read_u32_le(&[data[80], data[81], data[82], data[83]]) as usize;
        let fit = (data.len() - 84) / 50;
        if declared < fit {
            declared
        } else {
            fit
        }
    } else {
        stl_ascii_triangles(data)
    };
    assert(3 * n <= usize::MAX) by {
        if binary {
            assert(n <= (data@.len() - 84) / 50);
        }
    }
    let mut edges: Vec<(usize, usize)> = Vec::new();
    let mut k: usize = 0;
    while k < n
        invariant
            k <= n,
            3 * n <= usize::MAX,
            edges@ == tri_edges(k as nat),
        decreases n - k,
    {
        push_tri_edges(&mut edges, k + 1);
        k = k + 1;
    }
    let pv = chars_of(file_path);
    let namev = after_last_char(pv.as_slice(), '/');
    (MeshInfo { name: string_of(namev.as_slice()), vertex_count: 3 * n, triangle_count: n }, edges)
}

} // verus!
