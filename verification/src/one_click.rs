//! One-click mobile run through `cargo-mobile2`: the stages, their errors,
//! and the decisions made before each stage spawns its command (which
//! arguments, which simulator, which launch script). Spawning the commands,
//! and reading the disk, is left to the caller.
use crate::probe::{SimctlDevice, SimctlRuntime};
use crate::text::{
    chars_of, parse_u32, parse_u32_chars, views, words, words_of, Separator, contains, contains_str, eq_str, owned, push_char, push_str, to_lowercase,
    unicode_lowercase,
};
use vstd::prelude::*;

verus! {

/// What a one-click run is configured with.
#[derive(Debug)]
pub struct OneClickConfig<'a> {
    pub project_root: &'a str,
    pub project_name: &'a str,
    pub ios_bundle_id: &'a str,
    pub android_package_name: &'a str,
}

#[derive(Debug, Clone, Copy, PartialEq, Eq, Structural)]
pub enum OneClickStage {
    /// `cargo mobile` binary lookup.
    ProbeToolchain,
    /// `cargo install cargo-mobile2` if missing.
    InstallToolchain,
    /// `cargo mobile init` first-run scaffolding.
    InitProject,
    /// Final launch.
    Launch,
    /// `rustup target add <triples>`.
    InstallRustTargets,
    /// `xcodebuild -downloadPlatform iOS`.
    DownloadIosSimRuntime,
}

pub open spec fn stage_label_spec(s: OneClickStage) -> Seq<char> {
    match s {
        OneClickStage::ProbeToolchain => "probe `cargo mobile`"@,
        OneClickStage::InstallToolchain => "install cargo-mobile2"@,
        OneClickStage::InitProject => "init mobile project"@,
        OneClickStage::Launch => "launch on device"@,
        OneClickStage::InstallRustTargets => "install rustup targets"@,
        OneClickStage::DownloadIosSimRuntime => "download iOS Simulator runtime"@,
    }
}

impl OneClickStage {
    pub fn label(self) -> (r: &'static str)
        ensures
            r@ == stage_label_spec(self),
    {
        match self {
            OneClickStage::ProbeToolchain => "probe `cargo mobile`",
            OneClickStage::InstallToolchain => "install cargo-mobile2",
            OneClickStage::InitProject => "init mobile project",
            OneClickStage::Launch => "launch on device",
            OneClickStage::InstallRustTargets => "install rustup targets",
            OneClickStage::DownloadIosSimRuntime => "download iOS Simulator runtime",
        }
    }
}

#[derive(Debug)]
pub struct OneClickError {
    pub stage: OneClickStage,
    pub message: String,
}

impl OneClickError {
    pub fn new(stage: OneClickStage, message: String) -> (e: Self)
        ensures
            e.stage == stage,
            e.message@ == message@,
    {
        Self { stage, message }
    }
}

/// Whether `r` is the error `(stage, message)`.
pub open spec fn is_error<T>(r: Result<T, OneClickError>, stage: OneClickStage, message: Seq<char>) -> bool {
    r matches Err(e) && e.stage == stage && e.message@ == message
}

// ───────────────────────── rustup targets ─────────────────────────

/// The arguments of `rustup` that add the given targets: `target add` and
/// the triples; no triples is an error of the InstallRustTargets stage.
pub fn install_rust_targets_args(triples: &[&str]) -> (r: Result<Vec<String>, OneClickError>)
    ensures
        triples@.len() == 0 ==> is_error(r, OneClickStage::InstallRustTargets, "no targets requested \u{2014} nothing to install."@),
        triples@.len() > 0 ==> (r matches Ok(args) && args@.len() == triples@.len() + 2
            && args@[0]@ == "target"@ && args@[1]@ == "add"@ && forall|i: int|
            0 <= i < triples@.len() ==> #[trigger] args@[i + 2]@ == triples@[i]@),
{
    if triples.len() == 0 {
        return Err(OneClickError::new(OneClickStage::InstallRustTargets, owned("no targets requested \u{2014} nothing to install.")));
    }
    let mut args: Vec<String> = Vec::new();
    args.push(owned("target"));
    args.push(owned("add"));
    let mut i: usize = 0;
    while i < triples.len()
        invariant
            i <= triples@.len(),
            args@.len() == i + 2,
            args@[0]@ == "target"@,
            args@[1]@ == "add"@,
            forall|k: int| 0 <= k < i ==> #[trigger] args@[k + 2]@ == triples@[k]@,
        decreases triples@.len() - i,
    {
        args.push(owned(triples[i]));
        i = i + 1;
    }
    Ok(args)
}

// ───────────────────────── cargo mobile init ─────────────────────────

/// The arguments of `cargo` for `mobile init`: `None` when `mobile.toml`
/// already exists (nothing to do); an InitProject error when the bundle id
/// is empty; otherwise `mobile init --non-interactive --name <name>
/// --bundle-id <id>`.
pub fn init_mobile_project_args(cfg: &OneClickConfig<'_>, mobile_toml_exists: bool) -> (r: Result<
    Option<Vec<String>>,
    OneClickError,
>)
    ensures
        mobile_toml_exists ==> r matches Ok(None),
        !mobile_toml_exists && cfg.ios_bundle_id@.len() == 0 ==> is_error(
            r,
            OneClickStage::InitProject,
            "iOS Bundle ID is empty \u{2014} set it in Build Settings before running `cargo mobile init`. cargo-mobile2 won't accept an empty value."@,
        ),
        !mobile_toml_exists && cfg.ios_bundle_id@.len() > 0 ==> (r matches Ok(Some(args))
            && args@.len() == 7 && args@[0]@ == "mobile"@ && args@[1]@ == "init"@ && args@[2]@
            == "--non-interactive"@ && args@[3]@ == "--name"@ && args@[4]@ == cfg.project_name@
            && args@[5]@ == "--bundle-id"@ && args@[6]@ == cfg.ios_bundle_id@),
{
    if mobile_toml_exists {
        return Ok(None);
    }
    if cfg.ios_bundle_id.is_empty() {
        return Err(OneClickError::new(OneClickStage::InitProject, owned("iOS Bundle ID is empty \u{2014} set it in Build Settings before running `cargo mobile init`. cargo-mobile2 won't accept an empty value.")));
    }
    let mut args: Vec<String> = Vec::new();
    args.push(owned("mobile"));
    args.push(owned("init"));
    args.push(owned("--non-interactive"));
    args.push(owned("--name"));
    args.push(owned(cfg.project_name));
    args.push(owned("--bundle-id"));
    args.push(owned(cfg.ios_bundle_id));
    Ok(Some(args))
}

// ───────────────────────── Android run ─────────────────────────

/// The checks before `cargo android run --release`: `cargo mobile` must be
/// installed (ProbeToolchain error otherwise), then the package name must
/// not be empty (Launch error otherwise).
pub fn android_run_check(cfg: &OneClickConfig<'_>, cargo_mobile_installed: bool) -> (r: Result<
    (),
    OneClickError,
>)
    ensures
        !cargo_mobile_installed ==> is_error(r, OneClickStage::ProbeToolchain, "`cargo mobile` not found. Install with `cargo install cargo-mobile2 --locked`."@),
        cargo_mobile_installed && cfg.android_package_name@.len() == 0 ==> is_error(
            r,
            OneClickStage::Launch,
            "Android package name is empty \u{2014} set it in Build Settings."@,
        ),
        cargo_mobile_installed && cfg.android_package_name@.len() > 0 ==> r is Ok,
{
    if !cargo_mobile_installed {
        return Err(OneClickError::new(OneClickStage::ProbeToolchain, owned("`cargo mobile` not found. Install with `cargo install cargo-mobile2 --locked`.")));
    }
    if cfg.android_package_name.is_empty() {
        return Err(OneClickError::new(OneClickStage::Launch, owned("Android package name is empty \u{2014} set it in Build Settings.")));
    }
    Ok(())
}

// ───────────────────────── iOS simulator run ─────────────────────────

/// A device usable for the one-click iOS run under the given runtime key:
/// an iOS runtime (`.iOS-`), a `udid`, a name mentioning `iPhone`, and
/// `isAvailable: true`. Gives the udid and whether it is booted.
pub open spec fn ios_candidate(key: Seq<char>, d: SimctlDevice) -> Option<(Seq<char>, bool)> {
    if !contains(key, ".iOS-"@) {
        None
    } else {
        match d.udid {
            None => None,
            Some(u) => {
                let name = match d.name {
                    Some(n) => n@,
                    None => ""@,
                };
                if !contains(name, "iPhone"@) || d.is_available != Some(true) {
                    None
                } else {
                    Some(
                        (
                            u@,
                            match d.state {
                                Some(s) => s@ == "Booted"@,
                                None => false,
                            },
                        ),
                    )
                }
            },
        }
    }
}

/// A runtime's version: the numbers in its key, in order (`…iOS-17-5` gives
/// 17, 5); a number too large for `u32` counts as 0.
pub open spec fn runtime_version(key: Seq<char>) -> Seq<u32> {
    words(key, Separator::NonAsciiDigit).map_values(
        |w: Seq<char>|
            match parse_u32(w) {
                Some(v) => v,
                None => 0u32,
            },
    )
}

/// Whether version `a` is older than version `b`: at the first number
/// where they differ `a`'s is smaller, or `a` is a proper prefix of `b`.
pub open spec fn version_lt(a: Seq<u32>, b: Seq<u32>) -> bool
    decreases a.len(),
{
    if a.len() == 0 {
        b.len() > 0
    } else if b.len() == 0 {
        false
    } else if a[0] != b[0] {
        a[0] < b[0]
    } else {
        version_lt(a.drop_first(), b.drop_first())
    }
}

/// The version numbers of a runtime key (see `runtime_version`).
pub fn version_of(key: &str) -> (r: Vec<u32>)
    ensures
        r@ == runtime_version(key@),
{
    let kv = chars_of(key);
    let ws = words_of(kv.as_slice(), Separator::NonAsciiDigit);
    let mut r: Vec<u32> = Vec::new();
    let mut i: usize = 0;
    while i < ws.len()
        invariant
            i <= ws@.len(),
            views(ws@) == words(key@, Separator::NonAsciiDigit),
            r@.len() == i,
            forall|k: int|
                0 <= k < i ==> #[trigger] r@[k] == match parse_u32(ws@[k]@) {
                    Some(v) => v,
                    None => 0u32,
                },
        decreases ws@.len() - i,
    {
        let v = match parse_u32_chars(ws[i].as_slice()) {
            Some(v) => v,
            None => 0,
        };
        r.push(v);
        i = i + 1;
    }
    assert(r@ =~= runtime_version(key@));
    r
}

/// Whether the runtime `b` is newer than the runtime `a` (see
/// `version_lt`).
pub fn runtime_newer(a: &str, b: &str) -> (r: bool)
    ensures
        r == version_lt(runtime_version(a@), runtime_version(b@)),
{
    let va = version_of(a);
    let vb = version_of(b);
    let mut i: usize = 0;
    assert(va@.skip(0) =~= va@);
    assert(vb@.skip(0) =~= vb@);
    loop
        invariant
            i <= va@.len(),
            i <= vb@.len(),
            va@ == runtime_version(a@),
            vb@ == runtime_version(b@),
            version_lt(va@, vb@) == version_lt(va@.skip(i as int), vb@.skip(i as int)),
        decreases va@.len() - i,
    {
        assert(va@.skip(i as int).len() == va@.len() - i);
        assert(vb@.skip(i as int).len() == vb@.len() - i);
        if i == va.len() {
            return i < vb.len();
        }
        if i == vb.len() {
            return false;
        }
        assert(va@.skip(i as int)[0] == va@[i as int]);
        assert(vb@.skip(i as int)[0] == vb@[i as int]);
        if va[i] != vb[i] {
            return va[i] < vb[i];
        }
        assert(va@.skip(i as int).drop_first() =~= va@.skip(i + 1));
        assert(vb@.skip(i as int).drop_first() =~= vb@.skip(i + 1));
        i = i + 1;
    }
}

/// The first booted candidate seen so far, and the first candidate of the
/// newest runtime seen so far (as `(key, udid)`).
pub type PickState = (Option<Seq<char>>, Option<(Seq<char>, Seq<char>)>);

pub open spec fn pick_step(acc: PickState, key: Seq<char>, d: SimctlDevice) -> PickState {
    match ios_candidate(key, d) {
        None => acc,
        Some((u, booted)) => (
            if booted && acc.0 is None {
                Some(u)
            } else {
                acc.0
            },
            if acc.1 is None || version_lt(runtime_version((acc.1->0).0), runtime_version(key)) {
                Some((key, u))
            } else {
                acc.1
            },
        ),
    }
}

pub open spec fn pick_devices(acc: PickState, key: Seq<char>, ds: Seq<SimctlDevice>) -> PickState
    decreases ds.len(),
{
    if ds.len() == 0 {
        acc
    } else {
        pick_step(pick_devices(acc, key, ds.drop_last()), key, ds.last())
    }
}

pub open spec fn pick_runtimes(rs: Seq<SimctlRuntime>) -> PickState
    decreases rs.len(),
{
    if rs.len() == 0 {
        (None, None)
    } else {
        let acc = pick_runtimes(rs.drop_last());
        match rs.last().devices {
            Some(ds) => pick_devices(acc, rs.last().key@, ds@),
            None => acc,
        }
    }
}

pub open spec fn opt_view(o: Option<String>) -> Option<Seq<char>> {
    match o {
        Some(b) => Some(b@),
        None => None,
    }
}

pub open spec fn pair_view(o: Option<(String, String)>) -> Option<(Seq<char>, Seq<char>)> {
    match o {
        Some(l) => Some((l.0@, l.1@)),
        None => None,
    }
}

pub open spec fn no_simulator_message() -> Seq<char> {
    "No iOS Simulator available \u{2014} install one via Xcode \u{2192} Settings \u{2192} Platforms."@
}

/// The simulator chosen for the one-click iOS run: a booted one if any (the
/// first), otherwise the first of the newest iOS runtime, runtimes being
/// compared by their version numbers.
pub open spec fn picked_simulator(rs: Seq<SimctlRuntime>) -> Option<Seq<char>> {
    let (booted, latest) = pick_runtimes(rs);
    if booted is Some {
        booted
    } else if latest is Some {
        Some((latest->0).1)
    } else {
        None
    }
}

/// Picks the iOS Simulator for the one-click run from the entries of
/// `xcrun simctl list -j devices` (see `picked_simulator`); none is a Launch
/// error.
pub fn pick_ios_simulator(runtimes: &Vec<SimctlRuntime>) -> (r: Result<String, OneClickError>)
    ensures
        picked_simulator(runtimes@) matches Some(u) ==> (r matches Ok(s) && s@ == u),
        picked_simulator(runtimes@) is None ==> is_error(r, OneClickStage::Launch, no_simulator_message()),
{
    let mut booted: Option<String> = None;
    let mut latest: Option<(String, String)> = None;
    let mut i: usize = 0;
    assert(runtimes@.take(0) =~= Seq::<SimctlRuntime>::empty());
    while i < runtimes.len()
        invariant
            i <= runtimes@.len(),
            pick_runtimes(runtimes@.take(i as int)) == (opt_view(booted), pair_view(latest)),
        decreases runtimes@.len() - i,
    {
        assert(runtimes@.take(i + 1).drop_last() =~= runtimes@.take(i as int));
        let rt = &runtimes[i];
        match &rt.devices {
            None => {},
            Some(ds) => {
                let key = rt.key.as_str();
                let kv = chars_of(key);
                let is_ios = contains_str(kv.as_slice(), ".iOS-");
                let ghost acc0 = pick_runtimes(runtimes@.take(i as int));
                let mut j: usize = 0;
                assert(ds@.take(0) =~= Seq::<SimctlDevice>::empty());
                while j < ds.len()
                    invariant
                        j <= ds@.len(),
                        is_ios == contains(rt.key@, ".iOS-"@),
                        key@ == rt.key@,
                        pick_devices(acc0, rt.key@, ds@.take(j as int)) == (
                            match booted {
                                Some(b) => Some(b@),
                                None => None,
                            },
                            match latest {
                                Some(l) => Some((l.0@, l.1@)),
                                None => None,
                            },
                        ),
                    decreases ds@.len() - j,
                {
                    assert(ds@.take(j + 1).drop_last() =~= ds@.take(j as int));
                    let d = &ds[j];
                    assert(pick_devices(acc0, rt.key@, ds@.take(j + 1)) == pick_step(
                        pick_devices(acc0, rt.key@, ds@.take(j as int)),
                        rt.key@,
                        *d,
                    ));
                    let ghost cand = ios_candidate(rt.key@, *d);
                    let ghost prev = (opt_view(booted), pair_view(latest));
                    if is_ios {
                        match &d.udid {
                            None => {},
                            Some(udid) => {
                                let iphone = match &d.name {
                                    Some(n) => {
                                        let nv = chars_of(n.as_str());
                                        contains_str(nv.as_slice(), "iPhone")
                                    },
                                    None => {
                                        let e: Vec<char> = Vec::new();
                                        proof {
                                            reveal_strlit("");
                                        }
                                        assert(""@ =~= e@);
                                        contains_str(e.as_slice(), "iPhone")
                                    },
                                };
                                let available = match d.is_available {
                                    Some(b) => b,
                                    None => false,
                                };
                                assert(cand is Some <==> (iphone && available));
                                if iphone && available {
                                    let is_booted = match &d.state {
                                        Some(s) => {
                                            let sv = chars_of(s.as_str());
                                            eq_str(sv.as_slice(), "Booted")
                                        },
                                        None => false,
                                    };
                                    assert(cand == Some((udid@, is_booted)));
                                    if is_booted && booted.is_none() {
                                        let uc = udid.clone();
                                        assert(uc@ == udid@);
                                        booted = Some(uc);
                                    }
                                    let newer = match &latest {
                                        None => true,
                                        Some(l) => runtime_newer(l.0.as_str(), key),
                                    };
                                    if newer {
                                        let kc = rt.key.clone();
                                        let uc = udid.clone();
                                        assert(kc@ == rt.key@);
                                        assert(uc@ == udid@);
                                        latest = Some((kc, uc));
                                    }
                                }
                            },
                        }
                    }
                    assert(pick_step(prev, rt.key@, *d) == (opt_view(booted), pair_view(latest)));
                    j = j + 1;
                }
                assert(ds@.take(ds@.len() as int) =~= ds@);
            },
        }
        i = i + 1;
    }
    assert(runtimes@.take(runtimes@.len() as int) =~= runtimes@);
    match booted {
        Some(b) => Ok(b),
        None => match latest {
            Some(l) => Ok(l.1),
            None => Err(OneClickError::new(OneClickStage::Launch, owned("No iOS Simulator available \u{2014} install one via Xcode \u{2192} Settings \u{2192} Platforms."))),
        },
    }
}

/// `s` quoted for a POSIX shell: wrapped in single quotes, each single quote
/// written as `'\''`.
pub open spec fn shell_quote_spec(s: Seq<char>) -> Seq<char> {
    "'"@ + quote_body(s) + "'"@
}

pub open spec fn quote_body(s: Seq<char>) -> Seq<char>
    decreases s.len(),
{
    if s.len() == 0 {
        Seq::empty()
    } else if s.last() == '\'' {
        quote_body(s.drop_last()) + "'\\''"@
    } else {
        quote_body(s.drop_last()).push(s.last())
    }
}

/// `s` quoted for a POSIX shell.
pub fn shell_quote(s: &str) -> (r: String)
    ensures
        r@ == shell_quote_spec(s@),
{
    let v = chars_of(s);
    let mut out = owned("'");
    let ghost start = out@;
    let mut i: usize = 0;
    assert(v@.take(0) =~= Seq::<char>::empty());
    while i < v.len()
        invariant
            i <= v@.len(),
            start == "'"@,
            out@ == start + quote_body(v@.take(i as int)),
        decreases v@.len() - i,
    {
        assert(v@.take(i + 1).drop_last() =~= v@.take(i as int));
        if v[i] == '\'' {
            push_str(&mut out, "'\\''");
            assert(out@ =~= start + quote_body(v@.take(i + 1)));
        } else {
            push_char(&mut out, v[i]);
            assert(out@ =~= start + quote_body(v@.take(i + 1)));
        }
        i = i + 1;
    }
    assert(v@.take(v@.len() as int) =~= v@);
    push_str(&mut out, "'");
    out
}

/// The `sh -c` script of the one-click iOS Simulator run: build the
/// cargo-mobile2 Xcode project for the simulator SDK, find the `.app`, boot
/// the simulator, install and launch.
pub open spec fn ios_simulator_script_spec(
    xcodeproj: Seq<char>,
    project_name: Seq<char>,
    derived: Seq<char>,
    products: Seq<char>,
    udid: Seq<char>,
    bundle_id: Seq<char>,
) -> Seq<char> {
    "set -e; SDK=$(xcrun --sdk iphonesimulator --show-sdk-path); echo '\u{2500}\u{2500} Building for iOS Simulator (xcodebuild -sdk iphonesimulator) \u{2500}\u{2500}'; xcodebuild -project "@
    + shell_quote_spec(xcodeproj)
    + " -scheme "@
    + shell_quote_spec(unicode_lowercase(project_name) + "_iOS"@)
    + " -configuration release -sdk iphonesimulator -derivedDataPath "@
    + shell_quote_spec(derived)
    + " CODE_SIGNING_REQUIRED=NO CODE_SIGN_IDENTITY='' GCC_PREPROCESSOR_DEFINITIONS='NDEBUG=1' \"BINDGEN_EXTRA_CLANG_ARGS_aarch64_apple_ios_sim=-target arm64-apple-ios14.0-simulator -isysroot $SDK\" build; APP=$(find "@
    + shell_quote_spec(products)
    + " -maxdepth 1 -name '*.app' -print -quit); if [ -z \"$APP\" ]; then echo \"error: built .app not found under "@
    + shell_quote_spec(products)
    + "\"; exit 1; fi; echo \"\u{2500}\u{2500} Booting simulator "@
    + udid
    + " \u{2500}\u{2500}\"; xcrun simctl boot "@
    + shell_quote_spec(udid)
    + " >/dev/null 2>&1 || true; open -a Simulator; echo \"\u{2500}\u{2500} Installing $APP \u{2500}\u{2500}\"; xcrun simctl install "@
    + shell_quote_spec(udid)
    + " \"$APP\"; echo \"\u{2500}\u{2500} Launching "@
    + shell_quote_spec(bundle_id)
    + " \u{2500}\u{2500}\"; exec xcrun simctl launch --console-pty "@
    + shell_quote_spec(udid)
    + " "@
    + shell_quote_spec(bundle_id)
}

/// The launch script for the one-click iOS Simulator run, given the Xcode
/// project path, the project name (its lower-case form names the scheme),
/// the derived-data and products directories, the simulator and the bundle
/// id.
pub fn ios_simulator_script(
    xcodeproj: &str,
    project_name: &str,
    derived: &str,
    products: &str,
    udid: &str,
    bundle_id: &str,
) -> (r: String)
    ensures
        r@ == ios_simulator_script_spec(xcodeproj@, project_name@, derived@, products@, udid@, bundle_id@),
{
    let name_lower = to_lowercase(project_name);
    let mut scheme = name_lower;
    push_str(&mut scheme, "_iOS");
    let proj_q = shell_quote(xcodeproj);
    let scheme_q = shell_quote(scheme.as_str());
    let derived_q = shell_quote(derived);
    let products_q = shell_quote(products);
    let udid_q = shell_quote(udid);
    let bundle_q = shell_quote(bundle_id);
    let mut s = owned("set -e; SDK=$(xcrun --sdk iphonesimulator --show-sdk-path); echo '\u{2500}\u{2500} Building for iOS Simulator (xcodebuild -sdk iphonesimulator) \u{2500}\u{2500}'; xcodebuild -project ");
    push_str(&mut s, proj_q.as_str());
    push_str(&mut s, " -scheme ");
    push_str(&mut s, scheme_q.as_str());
    push_str(&mut s, " -configuration release -sdk iphonesimulator -derivedDataPath ");
    push_str(&mut s, derived_q.as_str());
    push_str(&mut s, " CODE_SIGNING_REQUIRED=NO CODE_SIGN_IDENTITY='' GCC_PREPROCESSOR_DEFINITIONS='NDEBUG=1' \"BINDGEN_EXTRA_CLANG_ARGS_aarch64_apple_ios_sim=-target arm64-apple-ios14.0-simulator -isysroot $SDK\" build; APP=$(find ");
    push_str(&mut s, products_q.as_str());
    push_str(&mut s, " -maxdepth 1 -name '*.app' -print -quit); if [ -z \"$APP\" ]; then echo \"error: built .app not found under ");
    push_str(&mut s, products_q.as_str());
    push_str(&mut s, "\"; exit 1; fi; echo \"\u{2500}\u{2500} Booting simulator ");
    push_str(&mut s, udid);
    push_str(&mut s, " \u{2500}\u{2500}\"; xcrun simctl boot ");
    push_str(&mut s, udid_q.as_str());
    push_str(&mut s, " >/dev/null 2>&1 || true; open -a Simulator; echo \"\u{2500}\u{2500} Installing $APP \u{2500}\u{2500}\"; xcrun simctl install ");
    push_str(&mut s, udid_q.as_str());
    push_str(&mut s, " \"$APP\"; echo \"\u{2500}\u{2500} Launching ");
    push_str(&mut s, bundle_q.as_str());
    push_str(&mut s, " \u{2500}\u{2500}\"; exec xcrun simctl launch --console-pty ");
    push_str(&mut s, udid_q.as_str());
    push_str(&mut s, " ");
    push_str(&mut s, bundle_q.as_str());
    s
}

pub open spec fn missing_gen_apple_message() -> Seq<char> {
    "`gen/apple` not found \u{2014} click `Initialize for Mobile` first."@
}

pub open spec fn missing_xcodeproj_message(xcodeproj: Seq<char>) -> Seq<char> {
    "Xcode project not found at `"@
    + xcodeproj
    + "`. Re-run `Initialize for Mobile`."@
}

pub open spec fn missing_bundle_id_message() -> Seq<char> {
    "iOS Bundle ID is empty in Build Settings and `mobile.toml` has no `[app] identifier`. Set one and retry."@
}

/// The checks before the one-click iOS Simulator run, in order: `gen/apple`
/// must exist, then the `.xcodeproj`; then the bundle id is the configured
/// one, or else the `[app] identifier` of `mobile.toml`, and neither is a
/// Launch error.
pub fn ios_run_bundle_id(
    cfg: &OneClickConfig<'_>,
    apple_dir_exists: bool,
    xcodeproj: &str,
    xcodeproj_exists: bool,
    mobile_toml_identifier: Option<String>,
) -> (r: Result<String, OneClickError>)
    ensures
        !apple_dir_exists ==> is_error(r, OneClickStage::Launch, missing_gen_apple_message()),
        apple_dir_exists && !xcodeproj_exists ==> is_error(
            r,
            OneClickStage::Launch,
            missing_xcodeproj_message(xcodeproj@),
        ),
        apple_dir_exists && xcodeproj_exists && cfg.ios_bundle_id@.len() > 0 ==> (r matches Ok(b)
            && b@ == cfg.ios_bundle_id@),
        apple_dir_exists && xcodeproj_exists && cfg.ios_bundle_id@.len() == 0 ==> (
        match mobile_toml_identifier {
            Some(id) => r matches Ok(b) && b@ == id@,
            None => is_error(r, OneClickStage::Launch, missing_bundle_id_message()),
        }),
{
    if !apple_dir_exists {
        return Err(OneClickError::new(OneClickStage::Launch, owned("`gen/apple` not found \u{2014} click `Initialize for Mobile` first.")));
    }
    if !xcodeproj_exists {
        let mut m = owned("Xcode project not found at `");
        push_str(&mut m, xcodeproj);
        push_str(&mut m, "`. Re-run `Initialize for Mobile`.");
        return Err(OneClickError::new(OneClickStage::Launch, m));
    }
    if !cfg.ios_bundle_id.is_empty() {
        return Ok(owned(cfg.ios_bundle_id));
    }
    match mobile_toml_identifier {
        Some(id) => Ok(id),
        None => Err(OneClickError::new(OneClickStage::Launch, owned("iOS Bundle ID is empty in Build Settings and `mobile.toml` has no `[app] identifier`. Set one and retry."))),
    }
}


// ───────────────────────── mobile.toml ─────────────────────────

/// One key of a TOML table and the text of its value when that is a string.
#[derive(Debug, Clone)]
pub struct TomlItem {
    pub key: String,
    pub string: Option<String>,
}

/// One key of a TOML document and, when its value is a table, that table's
/// keys.
#[derive(Debug, Clone)]
pub struct TomlSection {
    pub key: String,
    pub items: Option<Vec<TomlItem>>,
}

/// A TOML table's items as plain values: key and string text.
pub open spec fn items_view(v: Seq<TomlItem>) -> Seq<(Seq<char>, Option<Seq<char>>)> {
    v.map_values(|i: TomlItem| (i.key@, match i.string {
        Some(s) => Some(s@),
        None => None,
    }))
}

/// A TOML document's sections as plain values.
pub open spec fn sections_view(v: Seq<TomlSection>) -> Seq<
    (Seq<char>, Option<Seq<(Seq<char>, Option<Seq<char>>)>>),
> {
    v.map_values(|t: TomlSection| (t.key@, match t.items {
        Some(items) => Some(items_view(items@)),
        None => None,
    }))
}

/// The name of what `toml::from_str` makes of a text, as the editor reads
/// it: none when the text is not a TOML document; else, when the document's
/// value is a table, its keys in the table's order, each with the keys and
/// string texts of its value when that is a table.
pub uninterp spec fn toml_sections(text: Seq<char>) -> Option<
    Option<Seq<(Seq<char>, Option<Seq<(Seq<char>, Option<Seq<char>>)>>)>>,
>;

/// `<toml::Value as FromStr>::from_str` (which is `toml::from_str`), with
/// the parsed value converted key by key into `TomlSection`s: `Table`
/// values through `as_table`, string values through `as_str`. The result is
/// a function of the text alone.
#[verifier::external_body]
fn toml_parse(raw: &str) -> (r: Option<Option<Vec<TomlSection>>>)
    ensures
        r matches Some(d) ==> toml_sections(raw@) == Some(match d {
            Some(v) => Some(sections_view(v@)),
            None => None,
        }),
        r is None <==> toml_sections(raw@) is None,
{
    let v = raw.parse::<toml::Value>().ok()?;
    Some(v.as_table().map(|t| t.iter().map(|(k, x)| TomlSection {
        key: k.clone(),
        items: x.as_table().map(|u| u.iter().map(|(k2, y)| TomlItem {
            key: k2.clone(),
            string: y.as_str().map(String::from),
        }).collect()),
    }).collect()))
}

/// The items of the first section named `key`, when its value is a table
/// (`toml::Value::get` on a table; keys of a TOML table are unique).
pub open spec fn section_items(
    secs: Seq<(Seq<char>, Option<Seq<(Seq<char>, Option<Seq<char>>)>>)>,
    key: Seq<char>,
) -> Option<Seq<(Seq<char>, Option<Seq<char>>)>>
    decreases secs.len(),
{
    if secs.len() == 0 {
        None
    } else if secs[0].0 == key {
        secs[0].1
    } else {
        section_items(secs.drop_first(), key)
    }
}

/// The string text of the first item named `key`, when it is a string.
pub open spec fn item_string(items: Seq<(Seq<char>, Option<Seq<char>>)>, key: Seq<char>) -> Option<
    Seq<char>,
>
    decreases items.len(),
{
    if items.len() == 0 {
        None
    } else if items[0].0 == key {
        items[0].1
    } else {
        item_string(items.drop_first(), key)
    }
}

/// The string at `[table] key` of a parsed document, if there is one.
pub open spec fn table_str(
    doc: Option<Option<Seq<(Seq<char>, Option<Seq<(Seq<char>, Option<Seq<char>>)>>)>>>,
    table: Seq<char>,
    key: Seq<char>,
) -> Option<Seq<char>> {
    match doc {
        Some(Some(secs)) => match section_items(secs, table) {
            Some(items) => item_string(items, key),
            None => None,
        },
        _ => None,
    }
}

/// The items of the first section named `key` (see `section_items`).
fn find_section<'a>(secs: &'a Vec<TomlSection>, key: &str) -> (r: Option<&'a Vec<TomlItem>>)
    ensures
        r matches Some(items) ==> section_items(sections_view(secs@), key@) == Some(items_view(items@)),
        r is None ==> section_items(sections_view(secs@), key@) is None,
{
    let kv = chars_of(key);
    let ghost all = sections_view(secs@);
    let mut i: usize = 0;
    assert(all.skip(0) =~= all);
    while i < secs.len()
        invariant
            i <= secs@.len(),
            kv@ == key@,
            all == sections_view(secs@),
            section_items(all, key@) == section_items(all.skip(i as int), key@),
        decreases secs@.len() - i,
    {
        assert(all.skip(i as int).drop_first() =~= all.skip(i + 1));
        assert(all.skip(i as int)[0] == all[i as int]);
        let sv = chars_of(secs[i].key.as_str());
        if crate::text::seq_eq(sv.as_slice(), kv.as_slice()) {
            return match &secs[i].items {
                Some(items) => Some(items),
                None => None,
            };
        }
        i = i + 1;
    }
    assert(all.skip(i as int) =~= Seq::<(Seq<char>, Option<Seq<(Seq<char>, Option<Seq<char>>)>>)>::empty());
    None
}

/// The string text of the first item named `key` (see `item_string`).
fn find_item_string(items: &Vec<TomlItem>, key: &str) -> (r: Option<String>)
    ensures
        r matches Some(s) ==> item_string(items_view(items@), key@) == Some(s@),
        r is None ==> item_string(items_view(items@), key@) is None,
{
    let kv = chars_of(key);
    let ghost all = items_view(items@);
    let mut i: usize = 0;
    assert(all.skip(0) =~= all);
    while i < items.len()
        invariant
            i <= items@.len(),
            kv@ == key@,
            all == items_view(items@),
            item_string(all, key@) == item_string(all.skip(i as int), key@),
        decreases items@.len() - i,
    {
        assert(all.skip(i as int).drop_first() =~= all.skip(i + 1));
        assert(all.skip(i as int)[0] == all[i as int]);
        let iv = chars_of(items[i].key.as_str());
        if crate::text::seq_eq(iv.as_slice(), kv.as_slice()) {
            return match &items[i].string {
                Some(s) => Some(owned(s.as_str())),
                None => None,
            };
        }
        i = i + 1;
    }
    assert(all.skip(i as int) =~= Seq::<(Seq<char>, Option<Seq<char>>)>::empty());
    None
}

/// The bundle id taken from the `[app] identifier` value found in
/// `mobile.toml`: that string unless it is empty.
pub fn bundle_id_from_identifier(found: Option<String>) -> (r: Option<String>)
    ensures
        r matches Some(s) ==> found matches Some(f) && s@ == f@ && s@.len() > 0,
        r is None ==> match found {
            Some(f) => f@.len() == 0,
            None => true,
        },
{
    match found {
        Some(s) => if s.as_str().is_empty() {
            None
        } else {
            Some(s)
        },
        None => None,
    }
}

/// The `[app] identifier` of a `mobile.toml` text: the string at that key
/// of the parsed document (see `toml_sections`), unless it is empty.
pub open spec fn mobile_toml_bundle_id(raw: Seq<char>) -> Option<Seq<char>> {
    match table_str(toml_sections(raw), "app"@, "identifier"@) {
        Some(s) => if s.len() > 0 {
            Some(s)
        } else {
            None
        },
        None => None,
    }
}

/// The `[app] identifier` of a `mobile.toml` text, when the text parses,
/// has that key as a string, and the string is not empty.
pub fn read_bundle_id_from_mobile_toml(raw: &str) -> (r: Option<String>)
    ensures
        r matches Some(s) ==> mobile_toml_bundle_id(raw@) == Some(s@),
        r is None ==> mobile_toml_bundle_id(raw@) is None,
{
    let doc = match toml_parse(raw) {
        Some(Some(d)) => d,
        _ => return None,
    };
    let app = match find_section(&doc, "app") {
        Some(a) => a,
        None => return None,
    };
    bundle_id_from_identifier(find_item_string(app, "identifier"))
}

/// A device that is an available iPhone of an iOS runtime and is booted.
pub open spec fn booted_iphone(key: Seq<char>, d: SimctlDevice) -> bool {
    &&& contains(key, ".iOS-"@)
    &&& d.udid is Some
    &&& d.name is Some && contains(d.name.unwrap()@, "iPhone"@)
    &&& d.is_available == Some(true)
    &&& d.state is Some && d.state.unwrap()@ == "Booted"@
}

/// Whether the device at (`i`, `j`) of the listing is a booted iPhone.
pub open spec fn booted_at(rs: Seq<SimctlRuntime>, i: int, j: int) -> bool {
    &&& 0 <= i < rs.len()
    &&& rs[i].devices is Some
    &&& 0 <= j < rs[i].devices.unwrap()@.len()
    &&& booted_iphone(rs[i].key@, rs[i].devices.unwrap()@[j])
}

/// An already booted simulator is preferred: when some available iPhone of
/// an iOS runtime is booted, the pick is the first such device in listing
/// order, whatever runtimes are newer.
pub proof fn lemma_booted_simulator_preferred(rs: Seq<SimctlRuntime>, i: int, j: int)
    requires
        booted_at(rs, i, j),
        forall|i2: int, j2: int|
            (i2 < i || (i2 == i && j2 < j)) ==> !#[trigger] booted_at(rs, i2, j2),
    ensures
        picked_simulator(rs) == Some(rs[i].devices.unwrap()@[j].udid.unwrap()@),
{
    lemma_first_booted_runtimes(rs, i, j);
}

proof fn lemma_booted_candidate(key: Seq<char>, d: SimctlDevice)
    ensures
        booted_iphone(key, d) ==> ios_candidate(key, d) == Some((d.udid.unwrap()@, true)),
        (ios_candidate(key, d) matches Some((u, b)) && b) ==> booted_iphone(key, d),
{
    reveal_strlit("");
    reveal_strlit("iPhone");
    if d.name is None {
        assert(!contains(""@, "iPhone"@));
    }
}

proof fn lemma_devices_keep_booted(acc: PickState, key: Seq<char>, ds: Seq<SimctlDevice>)
    requires
        acc.0 is Some || forall|j: int| 0 <= j < ds.len() ==> !booted_iphone(key, #[trigger] ds[j]),
    ensures
        pick_devices(acc, key, ds).0 == acc.0,
    decreases ds.len(),
{
    if ds.len() > 0 {
        let q = ds.drop_last();
        assert forall|j: int| 0 <= j < q.len() && acc.0 is None implies !booted_iphone(key, #[trigger] q[j]) by {
            assert(q[j] == ds[j]);
        }
        lemma_devices_keep_booted(acc, key, q);
        lemma_booted_candidate(key, ds.last());
        if acc.0 is None {
            assert(!booted_iphone(key, ds[ds.len() - 1]));
        }
    }
}

proof fn lemma_devices_first_booted(acc: PickState, key: Seq<char>, ds: Seq<SimctlDevice>, j: int)
    requires
        acc.0 is None,
        0 <= j < ds.len(),
        booted_iphone(key, ds[j]),
        forall|j2: int| 0 <= j2 < j ==> !booted_iphone(key, #[trigger] ds[j2]),
    ensures
        pick_devices(acc, key, ds).0 == Some(ds[j].udid.unwrap()@),
    decreases ds.len(),
{
    let q = ds.drop_last();
    if j == ds.len() - 1 {
        assert forall|j2: int| 0 <= j2 < q.len() implies !booted_iphone(key, #[trigger] q[j2]) by {
            assert(q[j2] == ds[j2]);
        }
        lemma_devices_keep_booted(acc, key, q);
        lemma_booted_candidate(key, ds[j]);
    } else {
        assert(q[j] == ds[j]);
        assert forall|j2: int| 0 <= j2 < j implies !booted_iphone(key, #[trigger] q[j2]) by {
            assert(q[j2] == ds[j2]);
        }
        lemma_devices_first_booted(acc, key, q, j);
    }
}

proof fn lemma_runtimes_none_booted(rs: Seq<SimctlRuntime>)
    requires
        forall|i2: int, j2: int| !#[trigger] booted_at(rs, i2, j2),
    ensures
        pick_runtimes(rs).0 is None,
    decreases rs.len(),
{
    if rs.len() > 0 {
        let q = rs.drop_last();
        assert forall|i2: int, j2: int| !#[trigger] booted_at(q, i2, j2) by {
            if booted_at(q, i2, j2) {
                assert(q[i2] == rs[i2]);
                assert(booted_at(rs, i2, j2));
            }
        }
        lemma_runtimes_none_booted(q);
        let last = rs.last();
        if let Some(ds) = last.devices {
            assert forall|j: int| 0 <= j < ds@.len() implies !booted_iphone(last.key@, #[trigger] ds@[j]) by {
                assert(!booted_at(rs, rs.len() - 1, j));
            }
            lemma_devices_keep_booted(pick_runtimes(q), last.key@, ds@);
        }
    }
}

proof fn lemma_first_booted_runtimes(rs: Seq<SimctlRuntime>, i: int, j: int)
    requires
        booted_at(rs, i, j),
        forall|i2: int, j2: int|
            (i2 < i || (i2 == i && j2 < j)) ==> !#[trigger] booted_at(rs, i2, j2),
    ensures
        pick_runtimes(rs).0 == Some(rs[i].devices.unwrap()@[j].udid.unwrap()@),
    decreases rs.len(),
{
    let q = rs.drop_last();
    let last = rs.last();
    if i == rs.len() - 1 {
        assert forall|i2: int, j2: int| !#[trigger] booted_at(q, i2, j2) by {
            if booted_at(q, i2, j2) {
                assert(q[i2] == rs[i2]);
                assert(booted_at(rs, i2, j2));
            }
        }
        lemma_runtimes_none_booted(q);
        let ds = last.devices.unwrap();
        assert forall|j2: int| 0 <= j2 < j implies !booted_iphone(last.key@, #[trigger] ds@[j2]) by {
            assert(!booted_at(rs, i, j2));
        }
        lemma_devices_first_booted(pick_runtimes(q), last.key@, ds@, j);
    } else {
        assert(q[i] == rs[i]);
        assert(booted_at(q, i, j));
        assert forall|i2: int, j2: int| (i2 < i || (i2 == i && j2 < j)) implies !#[trigger] booted_at(q, i2, j2) by {
            if booted_at(q, i2, j2) {
                assert(q[i2] == rs[i2]);
                assert(booted_at(rs, i2, j2));
            }
        }
        lemma_first_booted_runtimes(q, i, j);
        if let Some(ds) = last.devices {
            lemma_devices_keep_booted(pick_runtimes(q), last.key@, ds@);
        }
    }
}

/// A device that is an available iPhone of an iOS runtime.
pub open spec fn available_iphone(key: Seq<char>, d: SimctlDevice) -> bool {
    &&& contains(key, ".iOS-"@)
    &&& d.udid is Some
    &&& d.name is Some && contains(d.name.unwrap()@, "iPhone"@)
    &&& d.is_available == Some(true)
}

/// The devices of the listing in order, each with its runtime's key.
pub open spec fn listing_pairs(rs: Seq<SimctlRuntime>) -> Seq<(Seq<char>, SimctlDevice)>
    decreases rs.len(),
{
    if rs.len() == 0 {
        Seq::empty()
    } else {
        listing_pairs(rs.drop_last()) + match rs.last().devices {
            Some(ds) => ds@.map_values(|d: SimctlDevice| (rs.last().key@, d)),
            None => Seq::empty(),
        }
    }
}

/// The simulator of the newest runtime is picked when none is booted: if
/// no available iPhone is booted, the pick is the first available iPhone
/// (in listing order) of a runtime whose version no other available
/// iPhone's runtime exceeds; with no available iPhone there is no pick.
pub proof fn lemma_newest_runtime_picked(rs: Seq<SimctlRuntime>, m0: int)
    requires
        0 <= m0 < listing_pairs(rs).len(),
        available_iphone(listing_pairs(rs)[m0].0, listing_pairs(rs)[m0].1),
        forall|m: int|
            0 <= m < listing_pairs(rs).len() ==> !booted_iphone(
                #[trigger] listing_pairs(rs)[m].0,
                listing_pairs(rs)[m].1,
            ),
        forall|m: int|
            0 <= m < listing_pairs(rs).len() && available_iphone(
                #[trigger] listing_pairs(rs)[m].0,
                listing_pairs(rs)[m].1,
            ) ==> !version_lt(
                runtime_version(listing_pairs(rs)[m0].0),
                runtime_version(listing_pairs(rs)[m].0),
            ),
        forall|m: int|
            0 <= m < m0 && available_iphone(
                #[trigger] listing_pairs(rs)[m].0,
                listing_pairs(rs)[m].1,
            ) ==> version_lt(
                runtime_version(listing_pairs(rs)[m].0),
                runtime_version(listing_pairs(rs)[m0].0),
            ),
    ensures
        picked_simulator(rs) == Some(listing_pairs(rs)[m0].1.udid.unwrap()@),
{
    let p = listing_pairs(rs);
    lemma_pick_runtimes_pairs(rs);
    lemma_pick_prefix(p, m0, p.len() as int);
    assert(p.take(p.len() as int) =~= p);
}

/// Without an available iPhone there is no pick.
pub proof fn lemma_no_iphone_no_pick(rs: Seq<SimctlRuntime>)
    requires
        forall|m: int|
            0 <= m < listing_pairs(rs).len() ==> !available_iphone(
                #[trigger] listing_pairs(rs)[m].0,
                listing_pairs(rs)[m].1,
            ),
    ensures
        picked_simulator(rs) is None,
{
    let p = listing_pairs(rs);
    lemma_pick_runtimes_pairs(rs);
    lemma_pick_none(p, p.len() as int);
    assert(p.take(p.len() as int) =~= p);
}

/// `pick_step` over (key, device) pairs in order.
pub open spec fn pick_pairs(acc: PickState, ps: Seq<(Seq<char>, SimctlDevice)>) -> PickState
    decreases ps.len(),
{
    if ps.len() == 0 {
        acc
    } else {
        pick_step(pick_pairs(acc, ps.drop_last()), ps.last().0, ps.last().1)
    }
}

proof fn lemma_iphone_candidate(key: Seq<char>, d: SimctlDevice)
    ensures
        available_iphone(key, d) <==> ios_candidate(key, d) is Some,
        ios_candidate(key, d) matches Some((u, b)) ==> u == d.udid.unwrap()@ && (b == booted_iphone(key, d)),
{
    reveal_strlit("");
    reveal_strlit("iPhone");
    if d.name is None {
        assert(!contains(""@, "iPhone"@));
    }
}

proof fn lemma_pick_pairs_append(acc: PickState, a: Seq<(Seq<char>, SimctlDevice)>, b: Seq<(Seq<char>, SimctlDevice)>)
    ensures
        pick_pairs(acc, a + b) == pick_pairs(pick_pairs(acc, a), b),
    decreases b.len(),
{
    if b.len() == 0 {
        assert(a + b =~= a);
    } else {
        assert((a + b).drop_last() =~= a + b.drop_last());
        lemma_pick_pairs_append(acc, a, b.drop_last());
    }
}

proof fn lemma_pick_devices_pairs(acc: PickState, key: Seq<char>, ds: Seq<SimctlDevice>)
    ensures
        pick_devices(acc, key, ds) == pick_pairs(acc, ds.map_values(|d: SimctlDevice| (key, d))),
    decreases ds.len(),
{
    if ds.len() > 0 {
        assert(ds.map_values(|d: SimctlDevice| (key, d)).drop_last() =~= ds.drop_last().map_values(
            |d: SimctlDevice| (key, d),
        ));
        lemma_pick_devices_pairs(acc, key, ds.drop_last());
    }
}

proof fn lemma_pick_runtimes_pairs(rs: Seq<SimctlRuntime>)
    ensures
        pick_runtimes(rs) == pick_pairs((None, None), listing_pairs(rs)),
    decreases rs.len(),
{
    if rs.len() > 0 {
        let q = rs.drop_last();
        lemma_pick_runtimes_pairs(q);
        match rs.last().devices {
            Some(ds) => {
                lemma_pick_devices_pairs(pick_runtimes(q), rs.last().key@, ds@);
                lemma_pick_pairs_append(
                    (None, None),
                    listing_pairs(q),
                    ds@.map_values(|d: SimctlDevice| (rs.last().key@, d)),
                );
            },
            None => {
                assert(listing_pairs(rs) =~= listing_pairs(q));
            },
        }
    }
}

proof fn lemma_pick_none(p: Seq<(Seq<char>, SimctlDevice)>, n: int)
    requires
        0 <= n <= p.len(),
        forall|m: int| 0 <= m < p.len() ==> !available_iphone(#[trigger] p[m].0, p[m].1),
    ensures
        pick_pairs((None, None), p.take(n)) == (None::<Seq<char>>, None::<(Seq<char>, Seq<char>)>),
    decreases n,
{
    if n > 0 {
        assert(p.take(n).drop_last() =~= p.take(n - 1));
        lemma_pick_none(p, n - 1);
        lemma_iphone_candidate(p[n - 1].0, p[n - 1].1);
    }
}

proof fn lemma_pick_prefix(p: Seq<(Seq<char>, SimctlDevice)>, m0: int, n: int)
    requires
        0 <= n <= p.len(),
        0 <= m0 < p.len(),
        available_iphone(p[m0].0, p[m0].1),
        forall|m: int| 0 <= m < p.len() ==> !booted_iphone(#[trigger] p[m].0, p[m].1),
        forall|m: int|
            0 <= m < p.len() && available_iphone(#[trigger] p[m].0, p[m].1) ==> !version_lt(
                runtime_version(p[m0].0),
                runtime_version(p[m].0),
            ),
        forall|m: int|
            0 <= m < m0 && available_iphone(#[trigger] p[m].0, p[m].1) ==> version_lt(
                runtime_version(p[m].0),
                runtime_version(p[m0].0),
            ),
    ensures
        pick_pairs((None, None), p.take(n)).0 is None,
        n <= m0 ==> (pick_pairs((None, None), p.take(n)).1 matches Some(l) ==> exists|m: int|
            0 <= m < n && available_iphone(#[trigger] p[m].0, p[m].1) && p[m].0 == l.0),
        n > m0 ==> pick_pairs((None, None), p.take(n)).1 == Some((p[m0].0, p[m0].1.udid.unwrap()@)),
    decreases n,
{
    if n > 0 {
        let k = n - 1;
        assert(p.take(n).drop_last() =~= p.take(k));
        assert(p.take(n).last() == p[k]);
        lemma_pick_prefix(p, m0, k);
        lemma_iphone_candidate(p[k].0, p[k].1);
        let acc = pick_pairs((None, None), p.take(k));
        let now = pick_pairs((None, None), p.take(n));
        assert(now == pick_step(acc, p[k].0, p[k].1));
        if k < m0 {
            if let Some(l) = now.1 {
                if acc.1 == now.1 {
                    let m = choose|m: int|
                        0 <= m < k && available_iphone(#[trigger] p[m].0, p[m].1) && p[m].0
                            == (acc.1->0).0;
                    assert(0 <= m < n && available_iphone(p[m].0, p[m].1) && p[m].0 == l.0);
                } else {
                    assert(available_iphone(p[k].0, p[k].1) && p[k].0 == l.0);
                }
            }
        } else if k == m0 {
            if let Some(l) = acc.1 {
                let m = choose|m: int|
                    0 <= m < k && available_iphone(#[trigger] p[m].0, p[m].1) && p[m].0 == l.0;
                assert(version_lt(runtime_version(p[m].0), runtime_version(p[m0].0)));
            }
        } else {
            if available_iphone(p[k].0, p[k].1) {
                assert(!version_lt(runtime_version(p[m0].0), runtime_version(p[k].0)));
            }
        }
    }
}

/// No two stages share a label.
pub proof fn lemma_stage_labels_distinct()
    ensures
        forall|a: OneClickStage, b: OneClickStage|
            a != b ==> #[trigger] stage_label_spec(a) != #[trigger] stage_label_spec(b),
{
    reveal_strlit("probe `cargo mobile`");
    assert("probe `cargo mobile`"@.len() == 20);
    reveal_strlit("install cargo-mobile2");
    assert("install cargo-mobile2"@.len() == 21);
    reveal_strlit("init mobile project");
    assert("init mobile project"@.len() == 19);
    reveal_strlit("launch on device");
    assert("launch on device"@.len() == 16);
    reveal_strlit("install rustup targets");
    assert("install rustup targets"@.len() == 22);
    reveal_strlit("download iOS Simulator runtime");
    assert("download iOS Simulator runtime"@.len() == 30);
}

} // verus!
