//! Toolchain detection: the parsers for the output of `xcodebuild`,
//! `xcrun simctl`, `security find-identity`, `adb devices` and `rustup`,
//! and the decisions the probes make on what they read. Running the tools
//! and reading the disk is left to the caller.
use crate::mobile_types::{
    AdbDevice, AndroidInstall, CodesignIdentity, MobileToolchain, NdkInstall, SimFamily, SimState,
    Simulator, XcodeInstall,
};
use crate::sorting::{lemma_lex_asym, lemma_lex_trans, sort_strings, sort_u32, sorted_strs, sorted_u32, str_views};
use std::time::SystemTime;
use crate::text::{
    after_last, after_last_char, chars_of, contains, contains_str, find, find_str, is_digit,
    is_ws, is_whitespace, is_ascii_digit, join, join_chars, lines, lines_of, replace_char,
    replace_chars, seq_eq, slice_of, starts_with, starts_with_str, string_of, strip_prefix,
    strip_prefix_str, to_lowercase, trim, trim_chars, trim_start, trim_start_chars,
    unicode_lowercase, views, words, words_of, Separator, join_path, join_path_str, lex_lt, owned,
    str_lt,
};
use vstd::prelude::*;

verus! {

/// The views of a sequence of strings.
pub open spec fn strs(v: Seq<String>) -> Seq<Seq<char>> {
    v.map_values(|s: String| s@)
}

/// The results of `f` on `ls` that are `Some`, in order.
pub open spec fn collect_some(ls: Seq<Seq<char>>, f: spec_fn(Seq<char>) -> Option<Seq<char>>) -> Seq<
    Seq<char>,
>
    decreases ls.len(),
{
    if ls.len() == 0 {
        Seq::empty()
    } else {
        let prev = collect_some(ls.drop_last(), f);
        match f(ls.last()) {
            Some(x) => prev.push(x),
            None => prev,
        }
    }
}

// ───────────────────────── xcodebuild -showsdks ─────────────────────────

/// The display name on one line of `xcodebuild -showsdks`: the trimmed text
/// before `-sdk `, when that is not empty.
pub open spec fn sdk_name(line: Seq<char>) -> Option<Seq<char>> {
    let t = trim(line);
    if t.len() == 0 {
        None
    } else {
        match find(t, "-sdk "@) {
            Some(idx) => {
                let name = trim(t.subrange(0, idx));
                if name.len() == 0 {
                    None
                } else {
                    Some(name)
                }
            },
            None => None,
        }
    }
}

/// The SDK display names of `xcodebuild -showsdks` output, in order.
pub open spec fn sdk_names(stdout: Seq<char>) -> Seq<Seq<char>> {
    collect_some(lines(stdout), |l: Seq<char>| sdk_name(l))
}

fn sdk_name_of(line: &[char]) -> (r: Option<String>)
    ensures
        r matches Some(s) ==> sdk_name(line@) == Some(s@),
        r is None ==> sdk_name(line@) is None,
{
    let t = trim_chars(line);
    if t.len() == 0 {
        return None;
    }
    match find_str(t.as_slice(), "-sdk ") {
        Some(idx) => {
            proof {
                crate::text::lemma_find_bounds(t@, "-sdk "@);
            }
            let head = slice_of(t.as_slice(), 0, idx);
            let name = trim_chars(head.as_slice());
            if name.len() == 0 {
                None
            } else {
                Some(string_of(name.as_slice()))
            }
        },
        None => None,
    }
}

/// The SDK display names listed by `xcodebuild -showsdks`.
pub fn parse_xcodebuild_sdks(stdout: String) -> (res: Vec<String>)
    ensures
        strs(res@) == sdk_names(stdout@),
{
    let ls = lines_of(stdout.as_str());
    let mut out: Vec<String> = Vec::new();
    let mut i: usize = 0;
    assert(views(ls@).take(0) =~= Seq::<Seq<char>>::empty());
    while i < ls.len()
        invariant
            i <= ls@.len(),
            views(ls@) == lines(stdout@),
            strs(out@) == collect_some(views(ls@).take(i as int), |l: Seq<char>| sdk_name(l)),
        decreases ls@.len() - i,
    {
        let ghost f = |l: Seq<char>| sdk_name(l);
        assert(views(ls@).take(i + 1).drop_last() =~= views(ls@).take(i as int));
        assert(views(ls@).take(i + 1).last() == ls@[i as int]@);
        match sdk_name_of(ls[i].as_slice()) {
            Some(name) => {
                out.push(name);
                assert(strs(out@) =~= collect_some(views(ls@).take(i as int), f).push(name@));
            },
            None => {},
        }
        i = i + 1;
    }
    assert(views(ls@).take(ls@.len() as int) =~= views(ls@));
    out
}

// ───────────────────────── simctl runtimes ─────────────────────────

/// "com.apple.CoreSimulator.SimRuntime.iOS-17-5" → "iOS 17.5": the part
/// after the last `.`, with `-` read as a space; when that has at least three
/// whitespace-separated parts, the first one, a space, and the rest joined
/// with `.`; otherwise the text as is.
pub open spec fn humanise_spec(key: Seq<char>) -> Seq<char> {
    let tail = replace_char(after_last(key, '.'), '-', ' ');
    let parts = words(tail, Separator::Whitespace);
    if parts.len() >= 3 {
        parts[0] + " "@ + join(parts.drop_first(), "."@)
    } else {
        tail
    }
}

/// Human-readable runtime name of a simctl runtime key.
pub fn humanise_runtime(key: &str) -> (r: String)
    ensures
        r@ == humanise_spec(key@),
{
    let kv = chars_of(key);
    let last = after_last_char(kv.as_slice(), '.');
    let tail = replace_chars(last.as_slice(), '-', ' ');
    let parts = words_of(tail.as_slice(), Separator::Whitespace);
    if parts.len() >= 3 {
        let mut rest: Vec<Vec<char>> = Vec::new();
        let mut i: usize = 1;
        while i < parts.len()
            invariant
                1 <= i <= parts@.len(),
                views(rest@) =~= views(parts@).subrange(1, i as int),
            decreases parts@.len() - i,
        {
            let c = crate::text::copy_chars(parts[i].as_slice());
            let ghost before = rest@;
            rest.push(c);
            assert(views(rest@) =~= views(before).push(parts@[i as int]@));
            assert(views(parts@).subrange(1, i + 1) =~= views(parts@).subrange(1, i as int).push(
                parts@[i as int]@,
            ));
            i = i + 1;
        }
        assert(views(rest@) =~= views(parts@).drop_first());
        let version = join_chars(rest.as_slice(), ".");
        let mut out = string_of(parts[0].as_slice());
        crate::text::push_str(&mut out, " ");
        crate::text::push_seq(&mut out, version.as_slice());
        out
    } else {
        string_of(tail.as_slice())
    }
}

/// The simulator family of a runtime key, judged on its Unicode lower-case
/// form: iOS when it mentions `iphone` or `.ios-`, visionOS when it mentions
/// `xros` or `visionos`, otherwise Other.
pub open spec fn runtime_family(key: Seq<char>) -> SimFamily {
    let lower = unicode_lowercase(key);
    if contains(lower, "iphone"@) || contains(lower, ".ios-"@) {
        SimFamily::Ios
    } else if contains(lower, "xros"@) || contains(lower, "visionos"@) {
        SimFamily::VisionOs
    } else {
        SimFamily::Other
    }
}

/// The simulator family of a simctl runtime key.
pub fn classify_runtime(key: &str) -> (r: SimFamily)
    ensures
        r == runtime_family(key@),
{
    let lower = to_lowercase(key);
    let lv = chars_of(lower.as_str());
    if contains_str(lv.as_slice(), "iphone") || contains_str(lv.as_slice(), ".ios-") {
        SimFamily::Ios
    } else if contains_str(lv.as_slice(), "xros") || contains_str(lv.as_slice(), "visionos") {
        SimFamily::VisionOs
    } else {
        SimFamily::Other
    }
}

/// One device entry of `xcrun simctl list -j devices`, as read from the
/// JSON: each field is `None` when it is missing or of another JSON type.
#[derive(Debug, Clone)]
pub struct SimctlDevice {
    pub udid: Option<String>,
    pub name: Option<String>,
    pub state: Option<String>,
    pub is_available: Option<bool>,
}

/// One runtime of the `devices` map; `devices` is `None` when the value is
/// not a JSON array.
#[derive(Debug, Clone)]
pub struct SimctlRuntime {
    pub key: String,
    pub devices: Option<Vec<SimctlDevice>>,
}

/// A device entry as plain values.
pub open spec fn simctl_device_view(d: SimctlDevice) -> (
    Option<Seq<char>>,
    Option<Seq<char>>,
    Option<Seq<char>>,
    Option<bool>,
) {
    (
        match d.udid {
            Some(x) => Some(x@),
            None => None,
        },
        match d.name {
            Some(x) => Some(x@),
            None => None,
        },
        match d.state {
            Some(x) => Some(x@),
            None => None,
        },
        d.is_available,
    )
}

/// The runtimes of a listing as plain values.
pub open spec fn listing_view(rs: Seq<SimctlRuntime>) -> Seq<
    (Seq<char>, Option<Seq<(Option<Seq<char>>, Option<Seq<char>>, Option<Seq<char>>, Option<bool>)>>),
> {
    rs.map_values(|r: SimctlRuntime| (r.key@, match r.devices {
        Some(ds) => Some(ds@.map_values(|d: SimctlDevice| simctl_device_view(d))),
        None => None,
    }))
}

/// The name of what `serde_json::from_str` makes of the text of
/// `xcrun simctl list -j devices`, as the editor reads it: the parse error's
/// message when the text is not JSON; none when it has no `devices` object;
/// else that object's entries in the map's order, each runtime key with,
/// when its value is an array, each element's `udid`, `name` and `state`
/// strings and `isAvailable` boolean (each none when missing or of another
/// JSON type).
pub uninterp spec fn simctl_listing(text: Seq<char>) -> Result<
    Option<
        Seq<
            (
                Seq<char>,
                Option<Seq<(Option<Seq<char>>, Option<Seq<char>>, Option<Seq<char>>, Option<bool>)>>,
            ),
        >,
    >,
    Seq<char>,
>;

/// `serde_json::from_str::<serde_json::Value>` on the simctl listing, with
/// the `devices` object converted entry by entry into `SimctlRuntime`s
/// through indexing (`Null` for a missing key or a non-object), `as_object`,
/// `as_array`, `as_str` and `as_bool`. The
/// result is a function of the text alone.
#[verifier::external_body]
fn simctl_json(text: &str) -> (r: Result<Option<Vec<SimctlRuntime>>, String>)
    ensures
        r matches Ok(Some(v)) ==> simctl_listing(text@) matches Ok(Some(w)) && w == listing_view(v@),
        r matches Ok(None) ==> simctl_listing(text@) matches Ok(None),
        r matches Err(e) ==> simctl_listing(text@) matches Err(m) && m == e@,
{
    let v: serde_json::Value = serde_json::from_str(text).map_err(|e| e.to_string())?;
    let s = |d: &serde_json::Value, k: &str| d[k].as_str().map(String::from);
    Ok(v["devices"].as_object().map(|m| m.iter().map(|(key, list)| SimctlRuntime {
        key: key.clone(),
        devices: list.as_array().map(|a| a.iter().map(|d| SimctlDevice {
            udid: s(d, "udid"),
            name: s(d, "name"),
            state: s(d, "state"),
            is_available: d["isAvailable"].as_bool(),
        }).collect()),
    }).collect()))
}

/// The runtimes of the text of `xcrun simctl list -j devices` (see
/// `simctl_listing`): an error with the parser's message when the text is
/// not JSON, none when it has no `devices` object.
pub fn parse_simctl_listing(text: &str) -> (r: Result<Option<Vec<SimctlRuntime>>, String>)
    ensures
        r matches Ok(Some(v)) ==> simctl_listing(text@) matches Ok(Some(w)) && w == listing_view(v@),
        r matches Ok(None) ==> simctl_listing(text@) matches Ok(None),
        r matches Err(e) ==> simctl_listing(text@) matches Err(m) && m == e@,
{
    simctl_json(text)
}

/// What a simulator is for the contracts.
pub open spec fn sim_view(s: Simulator) -> (Seq<char>, Seq<char>, Seq<char>, SimState, SimFamily) {
    (s.udid@, s.name@, s.runtime@, s.state, s.family)
}

/// The state named by simctl's `state` field.
pub open spec fn sim_state(state: Option<String>) -> SimState {
    match state {
        Some(s) => if s@ == "Booted"@ {
            SimState::Booted
        } else if s@ == "Shutdown"@ {
            SimState::Shutdown
        } else {
            SimState::Unknown
        },
        None => SimState::Unknown,
    }
}

/// The simulator a device entry stands for under the given runtime key: none
/// without a `udid`, none when `isAvailable` is `false`; the name defaults to
/// "Unknown".
pub open spec fn device_sim(key: Seq<char>, d: SimctlDevice) -> Option<
    (Seq<char>, Seq<char>, Seq<char>, SimState, SimFamily),
> {
    match d.udid {
        None => None,
        Some(udid) => if d.is_available == Some(false) {
            None
        } else {
            Some(
                (
                    udid@,
                    match d.name {
                        Some(n) => n@,
                        None => "Unknown"@,
                    },
                    humanise_spec(key),
                    sim_state(d.state),
                    runtime_family(key),
                ),
            )
        },
    }
}

/// The simulators of one runtime's device list, in order.
pub open spec fn runtime_sims(key: Seq<char>, ds: Seq<SimctlDevice>) -> Seq<
    (Seq<char>, Seq<char>, Seq<char>, SimState, SimFamily),
>
    decreases ds.len(),
{
    if ds.len() == 0 {
        Seq::empty()
    } else {
        let prev = runtime_sims(key, ds.drop_last());
        match device_sim(key, ds.last()) {
            Some(s) => prev.push(s),
            None => prev,
        }
    }
}

/// The simulators of all runtimes, runtime by runtime; runtimes whose value
/// is not an array are skipped.
pub open spec fn listing_sims(rs: Seq<SimctlRuntime>) -> Seq<
    (Seq<char>, Seq<char>, Seq<char>, SimState, SimFamily),
>
    decreases rs.len(),
{
    if rs.len() == 0 {
        Seq::empty()
    } else {
        let prev = listing_sims(rs.drop_last());
        match rs.last().devices {
            Some(ds) => prev + runtime_sims(rs.last().key@, ds@),
            None => prev,
        }
    }
}

/// The simulators listed by `xcrun simctl list -j devices`, given the
/// entries of its `devices` map in order.
pub fn simulators_from_listing(runtimes: &Vec<SimctlRuntime>) -> (res: Vec<Simulator>)
    ensures
        res@.map_values(|s: Simulator| sim_view(s)) == listing_sims(runtimes@),
{
    let mut out: Vec<Simulator> = Vec::new();
    let mut i: usize = 0;
    assert(runtimes@.take(0) =~= Seq::<SimctlRuntime>::empty());
    while i < runtimes.len()
        invariant
            i <= runtimes@.len(),
            out@.map_values(|s: Simulator| sim_view(s)) == listing_sims(runtimes@.take(i as int)),
        decreases runtimes@.len() - i,
    {
        assert(runtimes@.take(i + 1).drop_last() =~= runtimes@.take(i as int));
        let rt = &runtimes[i];
        match &rt.devices {
            None => {},
            Some(ds) => {
                let runtime = humanise_runtime(rt.key.as_str());
                let family = classify_runtime(rt.key.as_str());
                let ghost base = out@.map_values(|s: Simulator| sim_view(s));
                let mut j: usize = 0;
                assert(ds@.take(0) =~= Seq::<SimctlDevice>::empty());
                assert(base + runtime_sims(rt.key@, ds@.take(0)) =~= base);
                while j < ds.len()
                    invariant
                        j <= ds@.len(),
                        runtime@ == humanise_spec(rt.key@),
                        family == runtime_family(rt.key@),
                        out@.map_values(|s: Simulator| sim_view(s)) == base + runtime_sims(
                            rt.key@,
                            ds@.take(j as int),
                        ),
                    decreases ds@.len() - j,
                {
                    assert(ds@.take(j + 1).drop_last() =~= ds@.take(j as int));
                    let d = &ds[j];
                    let ghost before = out@;
                    match &d.udid {
                        None => {},
                        Some(udid) => {
                            let unavailable = match d.is_available {
                                Some(b) => !b,
                                None => false,
                            };
                            if !unavailable {
                                let name = match &d.name {
                                    Some(n) => n.clone(),
                                    None => crate::text::owned("Unknown"),
                                };
                                let state = match &d.state {
                                    Some(s) => {
                                        let sv = chars_of(s.as_str());
                                        if crate::text::eq_str(sv.as_slice(), "Booted") {
                                            SimState::Booted
                                        } else if crate::text::eq_str(sv.as_slice(), "Shutdown") {
                                            SimState::Shutdown
                                        } else {
                                            SimState::Unknown
                                        }
                                    },
                                    None => SimState::Unknown,
                                };
                                let sim = Simulator {
                                    udid: udid.clone(),
                                    name,
                                    runtime: runtime.clone(),
                                    state,
                                    family,
                                };
                                out.push(sim);
                                assert(out@.map_values(|s: Simulator| sim_view(s)) =~= before.map_values(
                                    |s: Simulator| sim_view(s),
                                ).push(sim_view(sim)));
                            }
                        },
                    }
                    j = j + 1;
                }
                assert(ds@.take(ds@.len() as int) =~= ds@);
            },
        }
        i = i + 1;
    }
    assert(runtimes@.take(runtimes@.len() as int) =~= runtimes@);
    out
}


// ───────────────────────── security find-identity ─────────────────────────

/// The `(id, name)` on one line shaped `N) <id> "<name>"` (digits before the
/// first `)`, possibly none; the id ends at the first whitespace; the name is
/// what stands between the surrounding quotes).
pub open spec fn identity_of_line(line: Seq<char>) -> Option<(Seq<char>, Seq<char>)> {
    let t = trim_start(line);
    match find(t, ")"@) {
        None => None,
        Some(p) => if !crate::text::all_digits(t.subrange(0, p)) {
            None
        } else {
            let rest = trim(t.subrange(p + 1, t.len() as int));
            let e = crate::text::ws_from(rest, 0);
            if e >= rest.len() {
                None
            } else {
                let after = trim(rest.subrange(e, rest.len() as int));
                if after.len() >= 2 && after[0] == '"' && after.last() == '"' {
                    Some((rest.subrange(0, e), after.subrange(1, after.len() - 1)))
                } else {
                    None
                }
            }
        },
    }
}

/// Whether one of `ids` has the id `id`.
pub open spec fn has_id(ids: Seq<(Seq<char>, Seq<char>)>, id: Seq<char>) -> bool {
    exists|j: int| 0 <= j < ids.len() && (#[trigger] ids[j]).0 == id
}

/// The identities of `security find-identity` output, line by line, keeping
/// the first entry of each id.
pub open spec fn identities(ls: Seq<Seq<char>>) -> Seq<(Seq<char>, Seq<char>)>
    decreases ls.len(),
{
    if ls.len() == 0 {
        Seq::empty()
    } else {
        let prev = identities(ls.drop_last());
        match identity_of_line(ls.last()) {
            Some(x) => if has_id(prev, x.0) {
                prev
            } else {
                prev.push(x)
            },
            None => prev,
        }
    }
}

/// What a codesign identity is for the contracts.
pub open spec fn identity_view(i: CodesignIdentity) -> (Seq<char>, Seq<char>) {
    (i.id@, i.common_name@)
}

fn identity_of(line: &[char]) -> (r: Option<(Vec<char>, Vec<char>)>)
    ensures
        r matches Some(x) ==> identity_of_line(line@) == Some((x.0@, x.1@)),
        r is None ==> identity_of_line(line@) is None,
{
    let t = trim_start_chars(line);
    let p = match find_str(t.as_slice(), ")") {
        Some(p) => p,
        None => return None,
    };
    proof {
        crate::text::lemma_find_bounds(t@, ")"@);
        reveal_strlit(")");
    }
    if !crate::text::all_ascii_digits(t.as_slice(), 0, p) {
        return None;
    }
    let tail = slice_of(t.as_slice(), p + 1, t.len());
    let rest = trim_chars(tail.as_slice());
    let e = match crate::text::find_whitespace(rest.as_slice()) {
        Some(e) => e,
        None => return None,
    };
    let id = slice_of(rest.as_slice(), 0, e);
    let tail2 = slice_of(rest.as_slice(), e, rest.len());
    let after = trim_chars(tail2.as_slice());
    if after.len() >= 2 && after[0] == '"' && after[after.len() - 1] == '"' {
        let name = slice_of(after.as_slice(), 1, after.len() - 1);
        Some((id, name))
    } else {
        None
    }
}

/// The codesign identities listed by `security find-identity -v -p
/// codesigning`, each id once (the first time it appears).
pub fn parse_security_find_identity(stdout: &str) -> (res: Vec<CodesignIdentity>)
    ensures
        res@.map_values(|i: CodesignIdentity| identity_view(i)) == identities(lines(stdout@)),
{
    let ls = lines_of(stdout);
    let mut out: Vec<CodesignIdentity> = Vec::new();
    let mut i: usize = 0;
    assert(views(ls@).take(0) =~= Seq::<Seq<char>>::empty());
    while i < ls.len()
        invariant
            i <= ls@.len(),
            views(ls@) == lines(stdout@),
            out@.map_values(|i: CodesignIdentity| identity_view(i)) == identities(
                views(ls@).take(i as int),
            ),
        decreases ls@.len() - i,
    {
        assert(views(ls@).take(i + 1).drop_last() =~= views(ls@).take(i as int));
        assert(views(ls@).take(i + 1).last() == ls@[i as int]@);
        let ghost prev = out@.map_values(|i: CodesignIdentity| identity_view(i));
        match identity_of(ls[i].as_slice()) {
            Some((id, name)) => {
                let mut seen = false;
                let mut j: usize = 0;
                while j < out.len()
                    invariant
                        j <= out@.len(),
                        prev == out@.map_values(|i: CodesignIdentity| identity_view(i)),
                        seen == has_id(prev.take(j as int), id@),
                    decreases out@.len() - j,
                {
                    let cv = chars_of(out[j].id.as_str());
                    let same = seq_eq(cv.as_slice(), id.as_slice());
                    proof {
                        assert(prev.take(j + 1) =~= prev.take(j as int).push(prev[j as int]));
                        if has_id(prev.take(j + 1), id@) {
                            let w = choose|w: int|
                                0 <= w < prev.take(j + 1).len() && (#[trigger] prev.take(
                                    j + 1,
                                )[w]).0 == id@;
                            if w < j {
                                assert(prev.take(j as int)[w] == prev.take(j + 1)[w]);
                            }
                        }
                        if has_id(prev.take(j as int), id@) {
                            let w = choose|w: int|
                                0 <= w < prev.take(j as int).len() && (#[trigger] prev.take(
                                    j as int,
                                )[w]).0 == id@;
                            assert(prev.take(j + 1)[w] == prev.take(j as int)[w]);
                        }
                        if same {
                            assert(prev.take(j + 1)[j as int].0 == id@);
                        }
                    }
                    seen = seen || same;
                    j = j + 1;
                }
                assert(prev.take(out@.len() as int) =~= prev);
                if !seen {
                    let ci = CodesignIdentity { id: string_of(id.as_slice()), common_name: string_of(name.as_slice()) };
                    out.push(ci);
                    assert(out@.map_values(|i: CodesignIdentity| identity_view(i)) =~= prev.push(
                        (id@, name@),
                    ));
                }
            },
            None => {},
        }
        i = i + 1;
    }
    assert(views(ls@).take(ls@.len() as int) =~= views(ls@));
    out
}

// ───────────────────────── adb devices ─────────────────────────

/// The first `model:` value among `parts[i..]` ("" when there is none).
pub open spec fn model_from(parts: Seq<Seq<char>>, i: int) -> Seq<char>
    decreases parts.len() - i,
{
    if i < 0 || i >= parts.len() {
        ""@
    } else {
        match strip_prefix(parts[i], "model:"@) {
            Some(m) => m,
            None => model_from(parts, i + 1),
        }
    }
}

/// The `(serial, model, authorised)` of one line of `adb devices -l`: the
/// first word is the serial, the second the state (`device` means
/// authorised), and the model is the first later `model:` value. Blank lines
/// and the `List of devices` header give none.
pub open spec fn adb_device_of_line(line: Seq<char>) -> Option<(Seq<char>, Seq<char>, bool)> {
    let t = trim(line);
    if t.len() == 0 || starts_with(t, "List of devices"@) {
        None
    } else {
        let parts = words(t, Separator::Whitespace);
        if parts.len() == 0 {
            None
        } else {
            let state = if parts.len() > 1 {
                parts[1]
            } else {
                ""@
            };
            Some((parts[0], model_from(parts, 2), state == "device"@))
        }
    }
}

/// The devices of `adb devices -l` output, line by line.
pub open spec fn adb_devices(ls: Seq<Seq<char>>) -> Seq<(Seq<char>, Seq<char>, bool)>
    decreases ls.len(),
{
    if ls.len() == 0 {
        Seq::empty()
    } else {
        let prev = adb_devices(ls.drop_last());
        match adb_device_of_line(ls.last()) {
            Some(d) => prev.push(d),
            None => prev,
        }
    }
}

/// What an adb device is for the contracts.
pub open spec fn device_view(d: AdbDevice) -> (Seq<char>, Seq<char>, bool) {
    (d.serial@, d.model@, d.authorised)
}

fn adb_device_of(line: &[char]) -> (r: Option<AdbDevice>)
    ensures
        r matches Some(d) ==> adb_device_of_line(line@) == Some(device_view(d)),
        r is None ==> adb_device_of_line(line@) is None,
{
    let t = trim_chars(line);
    if t.len() == 0 || starts_with_str(t.as_slice(), "List of devices") {
        return None;
    }
    let parts = words_of(t.as_slice(), Separator::Whitespace);
    if parts.len() == 0 {
        return None;
    }
    let authorised = if parts.len() > 1 {
        crate::text::eq_str(parts[1].as_slice(), "device")
    } else {
        let e: Vec<char> = Vec::new();
        proof {
            reveal_strlit("");
            reveal_strlit("device");
        }
        assert(""@ =~= e@);
        false
    };
    let model = first_model(&parts);
    Some(
        AdbDevice {
            serial: string_of(parts[0].as_slice()),
            model: string_of(model.as_slice()),
            authorised,
        },
    )
}

/// The first `model:` value among the words from the third on.
fn first_model(parts: &Vec<Vec<char>>) -> (res: Vec<char>)
    ensures
        res@ == model_from(views(parts@), 2),
{
    let mut k: usize = 2;
    while k < parts.len()
        invariant
            2 <= k,
            model_from(views(parts@), 2) == model_from(views(parts@), k as int),
        decreases parts@.len() - k,
    {
        match strip_prefix_str(parts[k].as_slice(), "model:") {
            Some(m) => {
                return m;
            },
            None => {},
        }
        k = k + 1;
    }
    let e: Vec<char> = Vec::new();
    proof {
        reveal_strlit("");
    }
    assert(""@ =~= e@);
    e
}

/// The devices listed by `adb devices -l`.
pub fn parse_adb_devices(stdout: &str) -> (res: Vec<AdbDevice>)
    ensures
        res@.map_values(|d: AdbDevice| device_view(d)) == adb_devices(lines(stdout@)),
{
    let ls = lines_of(stdout);
    let mut out: Vec<AdbDevice> = Vec::new();
    let mut i: usize = 0;
    assert(views(ls@).take(0) =~= Seq::<Seq<char>>::empty());
    while i < ls.len()
        invariant
            i <= ls@.len(),
            views(ls@) == lines(stdout@),
            out@.map_values(|d: AdbDevice| device_view(d)) == adb_devices(views(ls@).take(i as int)),
        decreases ls@.len() - i,
    {
        assert(views(ls@).take(i + 1).drop_last() =~= views(ls@).take(i as int));
        assert(views(ls@).take(i + 1).last() == ls@[i as int]@);
        let ghost prev = out@;
        match adb_device_of(ls[i].as_slice()) {
            Some(d) => {
                out.push(d);
                assert(out@.map_values(|d: AdbDevice| device_view(d)) =~= prev.map_values(
                    |d: AdbDevice| device_view(d),
                ).push(device_view(d)));
            },
            None => {},
        }
        i = i + 1;
    }
    assert(views(ls@).take(ls@.len() as int) =~= views(ls@));
    out
}

// ───────────────────────── rustup, NDK, SDK directories ─────────────────────────

/// The installed targets of `rustup target list --installed` output: the
/// trimmed, non-empty lines, each once.
pub open spec fn rust_targets(ls: Seq<Seq<char>>) -> Seq<Seq<char>>
    decreases ls.len(),
{
    if ls.len() == 0 {
        Seq::empty()
    } else {
        let prev = rust_targets(ls.drop_last());
        let t = trim(ls.last());
        if t.len() == 0 || prev.contains(t) {
            prev
        } else {
            prev.push(t)
        }
    }
}

/// The set of installed targets reported by `rustup target list --installed`.
pub fn parse_rust_targets(stdout: &str) -> (res: Vec<String>)
    ensures
        strs(res@) == rust_targets(lines(stdout@)),
{
    let ls = lines_of(stdout);
    let mut out: Vec<String> = Vec::new();
    let mut i: usize = 0;
    assert(views(ls@).take(0) =~= Seq::<Seq<char>>::empty());
    while i < ls.len()
        invariant
            i <= ls@.len(),
            views(ls@) == lines(stdout@),
            strs(out@) == rust_targets(views(ls@).take(i as int)),
        decreases ls@.len() - i,
    {
        assert(views(ls@).take(i + 1).drop_last() =~= views(ls@).take(i as int));
        assert(views(ls@).take(i + 1).last() == ls@[i as int]@);
        let t = trim_chars(ls[i].as_slice());
        if t.len() > 0 {
            let ghost prev = strs(out@);
            let mut seen = false;
            let mut j: usize = 0;
            while j < out.len()
                invariant
                    j <= out@.len(),
                    prev == strs(out@),
                    seen == prev.take(j as int).contains(t@),
                decreases out@.len() - j,
            {
                let cv = chars_of(out[j].as_str());
                let same = seq_eq(cv.as_slice(), t.as_slice());
                proof {
                    assert(prev.take(j + 1) =~= prev.take(j as int).push(prev[j as int]));
                    if prev.take(j + 1).contains(t@) {
                        let w = choose|w: int| 0 <= w < prev.take(j + 1).len() && #[trigger] prev.take(j + 1)[w] == t@;
                        if w < j {
                            assert(prev.take(j as int)[w] == t@);
                        }
                    }
                    if prev.take(j as int).contains(t@) {
                        let w = choose|w: int| 0 <= w < prev.take(j as int).len() && #[trigger] prev.take(j as int)[w] == t@;
                        assert(prev.take(j + 1)[w] == t@);
                    }
                    if same {
                        assert(prev.take(j + 1)[j as int] == t@);
                    }
                }
                seen = seen || same;
                j = j + 1;
            }
            assert(prev.take(out@.len() as int) =~= prev);
            if !seen {
                let ts = string_of(t.as_slice());
                out.push(ts);
                assert(strs(out@) =~= prev.push(t@));
            }
        }
        i = i + 1;
    }
    assert(views(ls@).take(ls@.len() as int) =~= views(ls@));
    out
}

/// Drops leading spaces and `=` signs (`trim_start_matches([' ', '='])`).
pub open spec fn drop_space_eq(s: Seq<char>) -> Seq<char>
    decreases s.len(),
{
    if s.len() > 0 && (s[0] == ' ' || s[0] == '=') {
        drop_space_eq(s.drop_first())
    } else {
        s
    }
}

/// The NDK version in `source.properties`: on the first line that starts with
/// `Pkg.Revision`, what follows it, without leading spaces and `=` signs,
/// trimmed.
pub open spec fn ndk_revision(ls: Seq<Seq<char>>) -> Option<Seq<char>>
    decreases ls.len(),
{
    if ls.len() == 0 {
        None
    } else {
        match strip_prefix(ls[0], "Pkg.Revision"@) {
            Some(rest) => Some(trim(drop_space_eq(rest))),
            None => ndk_revision(ls.drop_first()),
        }
    }
}

/// The NDK version recorded in the text of a `source.properties` file.
pub fn parse_ndk_revision(props: &str) -> (r: Option<String>)
    ensures
        r matches Some(s) ==> ndk_revision(lines(props@)) == Some(s@),
        r is None ==> ndk_revision(lines(props@)) is None,
{
    let ls = lines_of(props);
    let mut i: usize = 0;
    assert(views(ls@).skip(0) =~= views(ls@));
    while i < ls.len()
        invariant
            i <= ls@.len(),
            ndk_revision(lines(props@)) == ndk_revision(views(ls@).skip(i as int)),
            views(ls@) == lines(props@),
        decreases ls@.len() - i,
    {
        assert(views(ls@).skip(i as int)[0] == ls@[i as int]@);
        assert(views(ls@).skip(i as int).drop_first() =~= views(ls@).skip(i + 1));
        match strip_prefix_str(ls[i].as_slice(), "Pkg.Revision") {
            Some(rest) => {
                let n = rest.len();
                let mut a: usize = 0;
                assert(rest@.subrange(0, n as int) =~= rest@);
                while a < n && (rest[a] == ' ' || rest[a] == '=')
                    invariant
                        a <= n == rest@.len(),
                        drop_space_eq(rest@) == drop_space_eq(rest@.subrange(a as int, n as int)),
                    decreases n - a,
                {
                    assert(rest@.subrange(a as int, n as int).drop_first() =~= rest@.subrange(
                        a + 1,
                        n as int,
                    ));
                    a = a + 1;
                }
                let tail = slice_of(rest.as_slice(), a, n);
                let v = trim_chars(tail.as_slice());
                return Some(string_of(v.as_slice()));
            },
            None => {},
        }
        i = i + 1;
    }
    None
}

/// The version in a directory name `<prefix><number>` (as `android-34`).
pub open spec fn dir_version(name: Seq<char>, prefix: Seq<char>) -> Option<u32> {
    match strip_prefix(name, prefix) {
        Some(rest) => crate::text::parse_u32(rest),
        None => None,
    }
}

/// The version in a directory name `<prefix><number>`, if it has that shape.
pub fn version_of_dir_name(name: &str, prefix: &str) -> (r: Option<u32>)
    ensures
        r == dir_version(name@, prefix@),
{
    let nv = chars_of(name);
    match strip_prefix_str(nv.as_slice(), prefix) {
        Some(rest) => crate::text::parse_u32_chars(rest.as_slice()),
        None => None,
    }
}

/// The file name of the `adb` binary on the host (`adb.exe` on Windows).
pub fn adb_filename(host_is_windows: bool) -> (r: &'static str)
    ensures
        r@ == (if host_is_windows {
            "adb.exe"@
        } else {
            "adb"@
        }),
{
    if host_is_windows {
        "adb.exe"
    } else {
        "adb"
    }
}


// ───────────────────────── the probes ─────────────────────────

/// The first line of a tool's output, trimmed.
pub open spec fn first_line(s: Seq<char>) -> Option<Seq<char>> {
    if lines(s).len() > 0 {
        Some(trim(lines(s)[0]))
    } else {
        None
    }
}

/// The Xcode version: the first line of `xcodebuild -version`, or a
/// placeholder when it could not be read.
pub open spec fn xcode_version(out: Option<String>) -> Seq<char> {
    match out {
        Some(s) => match first_line(s@) {
            Some(l) => l,
            None => "Xcode (unknown version)"@,
        },
        None => "Xcode (unknown version)"@,
    }
}

/// What the Xcode probe finds: nothing off macOS, without an active
/// developer directory (`xcode-select -p` failed or printed only blanks).
pub open spec fn xcode_found(host_is_macos: bool, developer_dir_out: Option<String>) -> bool {
    host_is_macos && (developer_dir_out matches Some(d) && trim(d@).len() > 0)
}

/// The Xcode install described by the outputs of `xcode-select -p`,
/// `xcodebuild -version`, `xcodebuild -showsdks` and the entries of
/// `xcrun simctl list -j devices` (each `None` when the tool failed).
/// Codesign identities are probed separately and start empty.
pub fn probe_xcode(
    host_is_macos: bool,
    developer_dir_out: Option<String>,
    version_out: Option<String>,
    sdks_out: Option<String>,
    simulators: Option<Vec<SimctlRuntime>>,
) -> (r: Option<XcodeInstall>)
    ensures
        r is Some <==> xcode_found(host_is_macos, developer_dir_out),
        r matches Some(x) ==> {
            &&& x.developer_dir@ == trim(developer_dir_out->0@)
            &&& x.version@ == xcode_version(version_out)
            &&& strs(x.sdks@) == match sdks_out {
                Some(s) => sdk_names(s@),
                None => Seq::empty(),
            }
            &&& x.simulators@.map_values(|s: Simulator| sim_view(s)) == match simulators {
                Some(rs) => listing_sims(rs@),
                None => Seq::empty(),
            }
            &&& x.codesign_identities@.len() == 0
        },
{
    if !host_is_macos {
        return None;
    }
    let dd = match &developer_dir_out {
        Some(d) => d,
        None => return None,
    };
    let ddv = chars_of(dd.as_str());
    let developer_dir = trim_chars(ddv.as_slice());
    if developer_dir.len() == 0 {
        return None;
    }
    let version = match &version_out {
        Some(s) => {
            let ls = lines_of(s.as_str());
            if ls.len() > 0 {
                assert(views(ls@)[0] == ls@[0]@);
                let l = trim_chars(ls[0].as_slice());
                string_of(l.as_slice())
            } else {
                owned("Xcode (unknown version)")
            }
        },
        None => owned("Xcode (unknown version)"),
    };
    let sdks = match sdks_out {
        Some(s) => parse_xcodebuild_sdks(s),
        None => {
            let v: Vec<String> = Vec::new();
            assert(strs(v@) =~= Seq::<Seq<char>>::empty());
            v
        },
    };
    let sims = match &simulators {
        Some(rs) => simulators_from_listing(rs),
        None => {
            let v: Vec<Simulator> = Vec::new();
            assert(v@.map_values(|s: Simulator| sim_view(s)) =~= Seq::empty());
            v
        },
    };
    Some(
        XcodeInstall {
            developer_dir: string_of(developer_dir.as_slice()),
            version,
            sdks,
            simulators: sims,
            codesign_identities: Vec::new(),
        },
    )
}

/// The installed Rust targets from the output of
/// `rustup target list --installed`; none when it could not be run.
pub fn probe_rust_targets(out: Option<String>) -> (r: Vec<String>)
    ensures
        strs(r@) == match out {
            Some(s) => rust_targets(lines(s@)),
            None => Seq::empty(),
        },
{
    match out {
        Some(s) => parse_rust_targets(s.as_str()),
        None => {
            let v: Vec<String> = Vec::new();
            assert(strs(v@) =~= Seq::<Seq<char>>::empty());
            v
        },
    }
}

/// The codesign identities from the output of
/// `security find-identity -v -p codesigning`; none off macOS or when it
/// could not be run.
pub fn probe_codesign_identities(host_is_macos: bool, out: Option<String>) -> (r: Vec<CodesignIdentity>)
    ensures
        r@.map_values(|i: CodesignIdentity| identity_view(i)) == match out {
            Some(s) => if host_is_macos {
                identities(lines(s@))
            } else {
                Seq::empty()
            },
            None => Seq::empty(),
        },
{
    match out {
        Some(s) => {
            if host_is_macos {
                return parse_security_find_identity(s.as_str());
            }
        },
        None => {},
    }
    let v: Vec<CodesignIdentity> = Vec::new();
    assert(v@.map_values(|i: CodesignIdentity| identity_view(i)) =~= Seq::empty());
    v
}

/// The devices from the output of `adb devices -l`; none when it could not
/// be run.
pub fn probe_adb_devices(out: Option<String>) -> (r: Vec<AdbDevice>)
    ensures
        r@.map_values(|d: AdbDevice| device_view(d)) == match out {
            Some(s) => adb_devices(lines(s@)),
            None => Seq::empty(),
        },
{
    match out {
        Some(s) => parse_adb_devices(s.as_str()),
        None => {
            let v: Vec<AdbDevice> = Vec::new();
            assert(v@.map_values(|d: AdbDevice| device_view(d)) =~= Seq::empty());
            v
        },
    }
}

/// The versions in the directory names that have the shape
/// `<prefix><number>`, in order.
pub open spec fn dir_versions(names: Seq<Seq<char>>, prefix: Seq<char>) -> Seq<u32>
    decreases names.len(),
{
    if names.len() == 0 {
        Seq::empty()
    } else {
        let prev = dir_versions(names.drop_last(), prefix);
        match dir_version(names.last(), prefix) {
            Some(v) => prev.push(v),
            None => prev,
        }
    }
}

/// The versions in the directory names `<prefix><number>`, sorted.
pub fn list_dir_versions(names: &Vec<String>, prefix: &str) -> (r: Vec<u32>)
    ensures
        sorted_u32(r@),
        r@.to_multiset() == dir_versions(strs(names@), prefix@).to_multiset(),
{
    let mut out: Vec<u32> = Vec::new();
    let mut i: usize = 0;
    assert(strs(names@).take(0) =~= Seq::<Seq<char>>::empty());
    while i < names.len()
        invariant
            i <= names@.len(),
            out@ == dir_versions(strs(names@).take(i as int), prefix@),
        decreases names@.len() - i,
    {
        assert(strs(names@).take(i + 1).drop_last() =~= strs(names@).take(i as int));
        assert(strs(names@).take(i + 1).last() == names@[i as int]@);
        match version_of_dir_name(names[i].as_str(), prefix) {
            Some(v) => out.push(v),
            None => {},
        }
        i = i + 1;
    }
    assert(strs(names@).take(names@.len() as int) =~= strs(names@));
    sort_u32(out)
}

/// The NDK version recorded in `source.properties`, or `unknown`.
pub open spec fn ndk_version(props: Option<String>) -> Seq<char> {
    match props {
        Some(p) => match ndk_revision(lines(p@)) {
            Some(v) => v,
            None => "unknown"@,
        },
        None => "unknown"@,
    }
}

fn ndk_at(root: &String, props: &Option<String>) -> (r: NdkInstall)
    ensures
        r.root@ == root@,
        r.version@ == ndk_version(*props),
{
    let version = match props {
        Some(p) => match parse_ndk_revision(p.as_str()) {
            Some(v) => v,
            None => owned("unknown"),
        },
        None => owned("unknown"),
    };
    NdkInstall { root: owned(root.as_str()), version }
}

/// The NDK to use: the last, in path order, of the versioned directories
/// under `ndk/` (each with the text of its `source.properties`, when it
/// could be read); else the legacy `ndk-bundle`; else none.
pub fn locate_ndk(versioned: &Vec<(String, Option<String>)>, legacy: &Option<(String, Option<String>)>) -> (r:
    Option<NdkInstall>)
    ensures
        versioned@.len() > 0 ==> (r matches Some(n) && exists|i: int|
            0 <= i < versioned@.len() && (forall|j: int|
                0 <= j < versioned@.len() ==> !lex_lt(versioned@[i].0@, #[trigger] versioned@[j].0@))
                && n.root@ == versioned@[i].0@ && n.version@ == ndk_version(versioned@[i].1)),
        versioned@.len() == 0 ==> match *legacy {
            Some((root, props)) => (r matches Some(n) && n.root@ == root@ && n.version@ == ndk_version(
                props,
            )),
            None => r is None,
        },
{
    if versioned.len() > 0 {
        let mut best: usize = 0;
        let mut i: usize = 1;
        proof {
            lemma_lex_asym(versioned@[0].0@, versioned@[0].0@);
        }
        while i < versioned.len()
            invariant
                1 <= i <= versioned@.len(),
                best < i,
                forall|j: int| 0 <= j < i ==> !lex_lt(versioned@[best as int].0@, #[trigger] versioned@[j].0@),
            decreases versioned@.len() - i,
        {
            if str_lt(versioned[best].0.as_str(), versioned[i].0.as_str()) {
                proof {
                    let nb = versioned@[i as int].0@;
                    let ob = versioned@[best as int].0@;
                    assert forall|j: int| 0 <= j < i + 1 implies !lex_lt(nb, #[trigger] versioned@[j].0@) by {
                        if j == i {
                            lemma_lex_asym(nb, nb);
                        } else if lex_lt(nb, versioned@[j].0@) {
                            lemma_lex_trans(ob, nb, versioned@[j].0@);
                        }
                    }
                }
                best = i;
            }
            i = i + 1;
        }
        let (root, props) = &versioned[best];
        return Some(ndk_at(root, props));
    }
    match legacy {
        Some((root, props)) => Some(ndk_at(root, props)),
        None => None,
    }
}

/// The `adb` path under an SDK root.
pub open spec fn adb_path(sdk_root: Seq<char>, host_is_windows: bool) -> Seq<char> {
    join_path(
        join_path(sdk_root, "platform-tools"@),
        if host_is_windows {
            "adb.exe"@
        } else {
            "adb"@
        },
    )
}

/// The Android SDK found at `sdk_root` (from `$ANDROID_HOME`,
/// `$ANDROID_SDK_ROOT` or a conventional location): none without a root
/// or when it does not exist. The platform levels are read from the
/// `platforms/android-<level>` directory names and sorted, the build-tools
/// names are sorted, and `adb` is the platform-tools binary when it exists.
/// Devices are probed separately and start empty.
pub fn probe_android(
    sdk_root: Option<String>,
    sdk_root_exists: bool,
    platform_names: &Vec<String>,
    build_tool_names: Vec<String>,
    ndk: Option<NdkInstall>,
    adb_exists: bool,
    host_is_windows: bool,
) -> (r: Option<AndroidInstall>)
    ensures
        r is Some <==> sdk_root is Some && sdk_root_exists,
        r matches Some(a) ==> {
            &&& a.sdk_root@ == sdk_root->0@
            &&& a.ndk == ndk
            &&& sorted_u32(a.platforms@)
            &&& a.platforms@.to_multiset() == dir_versions(strs(platform_names@), "android-"@).to_multiset()
            &&& sorted_strs(str_views(a.build_tools@))
            &&& a.build_tools@.to_multiset() == build_tool_names@.to_multiset()
            &&& (a.adb is Some <==> adb_exists)
            &&& (a.adb matches Some(p) ==> p@ == adb_path(sdk_root->0@, host_is_windows))
            &&& a.devices@.len() == 0
        },
{
    let root = match sdk_root {
        Some(r) => r,
        None => return None,
    };
    if !sdk_root_exists {
        return None;
    }
    let platforms = list_dir_versions(platform_names, "android-");
    let build_tools = sort_strings(build_tool_names);
    let adb = if adb_exists {
        let tools = join_path_str(root.as_str(), "platform-tools");
        Some(join_path_str(tools.as_str(), adb_filename(host_is_windows)))
    } else {
        None
    };
    Some(AndroidInstall { sdk_root: root, ndk, platforms, build_tools, adb, devices: Vec::new() })
}

/// A toolchain snapshot from the three probes, stamped with the time.
pub fn probe_all(
    xcode: Option<XcodeInstall>,
    android: Option<AndroidInstall>,
    rust_targets: Vec<String>,
    now: SystemTime,
) -> (r: MobileToolchain)
    ensures
        r.xcode == xcode,
        r.android == android,
        r.rust_targets == rust_targets,
        r.last_probed == Some(now),
{
    MobileToolchain { xcode, android, rust_targets, last_probed: Some(now) }
}


/// The installed targets are trimmed, non-empty, and none occurs twice.
pub proof fn lemma_rust_targets_distinct(ls: Seq<Seq<char>>)
    ensures
        forall|i: int, j: int|
            0 <= i < j < rust_targets(ls).len() ==> #[trigger] rust_targets(ls)[i] != #[trigger] rust_targets(ls)[j],
        forall|i: int|
            0 <= i < rust_targets(ls).len() ==> (#[trigger] rust_targets(ls)[i]).len() > 0 && exists|k: int|
                0 <= k < ls.len() && trim(ls[k]) == rust_targets(ls)[i],
    decreases ls.len(),
{
    if ls.len() > 0 {
        lemma_rust_targets_distinct(ls.drop_last());
        let prev = rust_targets(ls.drop_last());
        let r = rust_targets(ls);
        assert forall|i: int|
            0 <= i < r.len() implies (#[trigger] r[i]).len() > 0 && exists|k: int|
                0 <= k < ls.len() && trim(ls[k]) == r[i] by {
            if i < prev.len() {
                assert(r[i] == prev[i]);
                let k = choose|k: int| 0 <= k < ls.drop_last().len() && trim(ls.drop_last()[k]) == prev[i];
                assert(ls[k] == ls.drop_last()[k]);
            } else {
                assert(trim(ls[ls.len() - 1]) == r[i]);
            }
        }
        assert forall|i: int, j: int| 0 <= i < j < r.len() implies #[trigger] r[i] != #[trigger] r[j] by {
            if j < prev.len() {
                assert(r[i] == prev[i] && r[j] == prev[j]);
            } else if i < prev.len() {
                assert(r[i] == prev[i]);
                assert(prev.contains(prev[i]));
            }
        }
    }
}


/// The identities list each id once, however many sections repeat it.
pub proof fn lemma_identity_ids_distinct(ls: Seq<Seq<char>>)
    ensures
        forall|i: int, j: int|
            0 <= i < j < identities(ls).len() ==> (#[trigger] identities(ls)[i]).0 != (
            #[trigger] identities(ls)[j]).0,
    decreases ls.len(),
{
    if ls.len() > 0 {
        lemma_identity_ids_distinct(ls.drop_last());
        let prev = identities(ls.drop_last());
        let r = identities(ls);
        assert forall|i: int, j: int| 0 <= i < j < r.len() implies (#[trigger] r[i]).0 != (
        #[trigger] r[j]).0 by {
            if j < prev.len() {
                assert(r[i] == prev[i] && r[j] == prev[j]);
            } else {
                assert(r[i] == prev[i]);
                assert(!has_id(prev, r[j].0));
            }
        }
    }
}

} // verus!
