//! What the mobile toolchain panel shows: the text of its rows, which of its
//! buttons are enabled and how they are labelled, the choices of the run
//! target picker and the colour of each log line.
use vstd::prelude::*;
use crate::log_relay::LogSeverity;
use crate::mobile_toolchain::{
    count_family, count_sims, missing_triples, short_id, MobilePlatform, OneClickStageLabel,
    RunTargetSelection,
};
use crate::mobile_types::{AdbDevice, MobileToolchain, NdkInstall, SimFamily, SimState, Simulator};
use crate::probe::strs;
use crate::runner::{short_ok, short_spec};
use crate::text::{
    chars_of, decimal, join, join_chars, owned, push_seq, push_str, push_usize, views,
};
use crate::ui_colors::Rgb;

verus! {

// ───────────────────────── one-click buttons ─────────────────────────

/// The label of a button whose work runs as the one-click session of stage
/// `s`: the busy text while that stage runs, the idle text otherwise.
pub open spec fn stage_label(
    active: Option<OneClickStageLabel>,
    s: OneClickStageLabel,
    busy: Seq<char>,
    idle: Seq<char>,
) -> Seq<char> {
    if active == Some(s) {
        busy
    } else {
        idle
    }
}

/// Whether the running one-click session, if any, is at stage `s`.
fn running_stage(active: Option<OneClickStageLabel>, s: OneClickStageLabel) -> (r: bool)
    ensures
        r == (active == Some(s)),
{
    match active {
        Some(a) => a == s,
        None => false,
    }
}

/// The label of the button that downloads the iOS Simulator runtime.
/// `active` is the stage of the one-click session while one runs.
pub fn download_runtime_label(active: Option<OneClickStageLabel>) -> (r: &'static str)
    ensures
        r@ == stage_label(
            active,
            OneClickStageLabel::DownloadIosSimRuntime,
            "Downloading…"@,
            "Download iOS Simulator runtime"@,
        ),
{
    if running_stage(active, OneClickStageLabel::DownloadIosSimRuntime) {
        "Downloading…"
    } else {
        "Download iOS Simulator runtime"
    }
}

/// The label of the button that installs the missing Rust targets.
pub fn install_targets_label(active: Option<OneClickStageLabel>) -> (r: &'static str)
    ensures
        r@ == stage_label(
            active,
            OneClickStageLabel::InstallRustTargets,
            "Installing targets..."@,
            "Install missing targets"@,
        ),
{
    if running_stage(active, OneClickStageLabel::InstallRustTargets) {
        "Installing targets..."
    } else {
        "Install missing targets"
    }
}

/// The state of the one-click section's buttons.
pub struct OneClickButtons {
    pub install_label: &'static str,
    pub install_enabled: bool,
    pub init_enabled: bool,
    pub ios_label: &'static str,
    pub ios_enabled: bool,
    pub android_enabled: bool,
    pub stop_shown: bool,
}

/// The one-click section's buttons: install while cargo-mobile2 is missing,
/// initialise while `mobile.toml` is missing, run once installed (on iOS only
/// on a macOS host), and nothing new while a session runs, which can then be
/// stopped. `active` is the stage of the one-click session while one runs.
pub fn one_click_buttons(
    installed: bool,
    toml_present: bool,
    active: Option<OneClickStageLabel>,
    host_is_macos: bool,
) -> (b: OneClickButtons)
    ensures
        b.install_label@ == stage_label(
            active,
            OneClickStageLabel::Install,
            "Installing..."@,
            "Install cargo-mobile2"@,
        ),
        b.install_enabled == (!installed && active is None),
        b.init_enabled == (installed && !toml_present && active is None),
        b.ios_label@ == (if host_is_macos {
            "Run on iOS Sim"@
        } else {
            "Run on iOS Sim (macOS only)"@
        }),
        b.ios_enabled == (host_is_macos && installed && active is None),
        b.android_enabled == (installed && active is None),
        b.stop_shown == active is Some,
{
    let busy = active.is_some();
    let install_label = if running_stage(active, OneClickStageLabel::Install) {
        "Installing..."
    } else {
        "Install cargo-mobile2"
    };
    let ios_label = if host_is_macos {
        "Run on iOS Sim"
    } else {
        "Run on iOS Sim (macOS only)"
    };
    OneClickButtons {
        install_label,
        install_enabled: !installed && !busy,
        init_enabled: installed && !toml_present && !busy,
        ios_label,
        ios_enabled: host_is_macos && installed && !busy,
        android_enabled: installed && !busy,
        stop_shown: busy,
    }
}

// ───────────────────────── Xcode rows ─────────────────────────

/// "Simulators: N iOS, M visionOS".
pub open spec fn simulator_summary_spec(sims: Seq<Simulator>) -> Seq<char> {
    "Simulators: "@ + decimal(count_family(sims, SimFamily::Ios)) + " iOS, "@ + decimal(
        count_family(sims, SimFamily::VisionOs),
    ) + " visionOS"@
}

/// The simulator count line of the Xcode section.
pub fn simulator_summary(sims: &Vec<Simulator>) -> (r: String)
    ensures
        r@ == simulator_summary_spec(sims@),
{
    let ios = count_sims(sims, SimFamily::Ios);
    let xr = count_sims(sims, SimFamily::VisionOs);
    let mut s = owned("Simulators: ");
    push_usize(&mut s, ios);
    push_str(&mut s, " iOS, ");
    push_usize(&mut s, xr);
    push_str(&mut s, " visionOS");
    assert(s@ =~= simulator_summary_spec(sims@));
    s
}

/// Whether to offer the runtime download: no iOS simulator is installed.
pub fn offer_runtime_download(sims: &Vec<Simulator>) -> (r: bool)
    ensures
        r == (count_family(sims@, SimFamily::Ios) == 0),
{
    count_sims(sims, SimFamily::Ios) == 0
}

/// A simulator's row: booted or not, name, runtime and UDID.
pub open spec fn simulator_row_spec(s: Simulator) -> Seq<char> {
    (if s.state == SimState::Booted {
        "online"@
    } else {
        "offline"@
    }) + "  "@ + s.name@ + " — "@ + s.runtime@ + " ("@ + s.udid@ + ")"@
}

/// A simulator's row in the Xcode section.
pub fn simulator_row(s: &Simulator) -> (r: String)
    ensures
        r@ == simulator_row_spec(*s),
{
    let mut out = match s.state {
        SimState::Booted => owned("online"),
        _ => owned("offline"),
    };
    push_str(&mut out, "  ");
    push_str(&mut out, s.name.as_str());
    push_str(&mut out, " — ");
    push_str(&mut out, s.runtime.as_str());
    push_str(&mut out, " (");
    push_str(&mut out, s.udid.as_str());
    push_str(&mut out, ")");
    assert(out@ =~= simulator_row_spec(*s));
    out
}

/// A count, or "not loaded" when it is zero.
pub open spec fn count_text_spec(n: nat) -> Seq<char> {
    if n == 0 {
        "not loaded"@
    } else {
        decimal(n)
    }
}

/// How many identities or devices were loaded, or "not loaded".
pub fn count_text(n: usize) -> (r: String)
    ensures
        r@ == count_text_spec(n as nat),
{
    if n == 0 {
        owned("not loaded")
    } else {
        let mut s = String::new();
        push_usize(&mut s, n);
        assert(s@ =~= decimal(n as nat));
        s
    }
}

// ───────────────────────── Android rows ─────────────────────────

/// The names of the installed platform levels, `android-XX`.
pub open spec fn platform_names(ps: Seq<u32>) -> Seq<Seq<char>> {
    ps.map_values(|v: u32| "android-"@ + decimal(v as nat))
}

/// "Platforms: " and the platform names joined by ", ", or "none".
pub open spec fn platforms_line_spec(ps: Seq<u32>) -> Seq<char> {
    "Platforms: "@ + if ps.len() == 0 {
        "none"@
    } else {
        join(platform_names(ps), ", "@)
    }
}

/// The platforms line of the Android section.
pub fn platforms_line(ps: &Vec<u32>) -> (r: String)
    ensures
        r@ == platforms_line_spec(ps@),
{
    let mut out = owned("Platforms: ");
    if ps.len() == 0 {
        push_str(&mut out, "none");
        return out;
    }
    let mut names: Vec<Vec<char>> = Vec::new();
    let mut i: usize = 0;
    while i < ps.len()
        invariant
            i <= ps@.len(),
            names@.len() == i,
            forall|k: int| 0 <= k < i ==> (#[trigger] names@[k])@ == "android-"@ + decimal(ps@[k] as nat),
        decreases ps@.len() - i,
    {
        let mut n = owned("android-");
        push_u32(&mut n, ps[i]);
        let v = chars_of(n.as_str());
        names.push(v);
        i = i + 1;
    }
    assert(views(names@) =~= platform_names(ps@));
    let joined = join_chars(names.as_slice(), ", ");
    push_seq(&mut out, joined.as_slice());
    out
}

/// Appends the decimal digits of `n`.
fn push_u32(s: &mut String, n: u32)
    ensures
        final(s)@ == old(s)@ + decimal(n as nat),
{
    crate::text::push_u64(s, n as u64);
}

/// "Build tools: " and the entries joined by ", ", or "none".
pub open spec fn build_tools_line_spec(tools: Seq<String>) -> Seq<char> {
    "Build tools: "@ + if tools.len() == 0 {
        "none"@
    } else {
        join(strs(tools), ", "@)
    }
}

/// The build tools line of the Android section.
pub fn build_tools_line(tools: &Vec<String>) -> (r: String)
    ensures
        r@ == build_tools_line_spec(tools@),
{
    let mut out = owned("Build tools: ");
    if tools.len() == 0 {
        push_str(&mut out, "none");
        return out;
    }
    let mut parts: Vec<Vec<char>> = Vec::new();
    let mut i: usize = 0;
    while i < tools.len()
        invariant
            i <= tools@.len(),
            parts@.len() == i,
            forall|k: int| 0 <= k < i ==> (#[trigger] parts@[k])@ == tools@[k]@,
        decreases tools@.len() - i,
    {
        parts.push(chars_of(tools[i].as_str()));
        i = i + 1;
    }
    assert(views(parts@) =~= strs(tools@));
    let joined = join_chars(parts.as_slice(), ", ");
    push_seq(&mut out, joined.as_slice());
    out
}

/// The NDK line: its version and root, or how to install one.
pub open spec fn ndk_line_spec(ndk: Option<NdkInstall>) -> Seq<char> {
    match ndk {
        Some(n) => "NDK: "@ + n.version@ + " ("@ + n.root@ + ")"@,
        None => "NDK: not installed (sdkmanager 'ndk;<version>')"@,
    }
}

/// The NDK line of the Android section (shown as a warning when missing).
pub fn ndk_line(ndk: &Option<NdkInstall>) -> (r: String)
    ensures
        r@ == ndk_line_spec(*ndk),
{
    match ndk {
        Some(n) => {
            let mut s = owned("NDK: ");
            push_str(&mut s, n.version.as_str());
            push_str(&mut s, " (");
            push_str(&mut s, n.root.as_str());
            push_str(&mut s, ")");
            assert(s@ =~= ndk_line_spec(*ndk));
            s
        },
        None => owned("NDK: not installed (sdkmanager 'ndk;<version>')"),
    }
}

/// The adb line: its path, or how to install it.
pub open spec fn adb_line_spec(adb: Option<String>) -> Seq<char> {
    match adb {
        Some(p) => "adb: "@ + p@,
        None => "adb: missing (sdkmanager 'platform-tools')"@,
    }
}

/// The adb line of the Android section (shown as a warning when missing).
pub fn adb_line(adb: &Option<String>) -> (r: String)
    ensures
        r@ == adb_line_spec(*adb),
{
    match adb {
        Some(p) => {
            let mut s = owned("adb: ");
            push_str(&mut s, p.as_str());
            s
        },
        None => owned("adb: missing (sdkmanager 'platform-tools')"),
    }
}

/// A device's row: online or not, serial, model and state.
pub open spec fn device_row_spec(d: AdbDevice) -> Seq<char> {
    (if d.authorised {
        "online"@
    } else {
        "unauthorised"@
    }) + "  "@ + d.serial@ + " — "@ + (if d.model@.len() == 0 {
        "(unknown model)"@
    } else {
        d.model@
    }) + " ("@ + (if d.authorised {
        "device"@
    } else {
        "unauthorised"@
    }) + ")"@
}

/// A device's row in the Android section.
pub fn device_row(d: &AdbDevice) -> (r: String)
    ensures
        r@ == device_row_spec(*d),
{
    let mut s = if d.authorised {
        owned("online")
    } else {
        owned("unauthorised")
    };
    push_str(&mut s, "  ");
    push_str(&mut s, d.serial.as_str());
    push_str(&mut s, " — ");
    if d.model.as_str().unicode_len() == 0 {
        push_str(&mut s, "(unknown model)");
    } else {
        push_str(&mut s, d.model.as_str());
    }
    push_str(&mut s, " (");
    if d.authorised {
        push_str(&mut s, "device");
    } else {
        push_str(&mut s, "unauthorised");
    }
    push_str(&mut s, ")");
    assert(s@ =~= device_row_spec(*d));
    s
}

// ───────────────────────── Rust targets ─────────────────────────

/// The mobile triples that rustup does not report, in the panel's order.
pub fn missing_rust_targets(t: &MobileToolchain) -> (r: Vec<String>)
    ensures
        strs(r@) == missing_triples(t.rust_targets@),
{
    let mut r: Vec<String> = Vec::new();
    let ps = [
        MobilePlatform::IosDevice,
        MobilePlatform::IosSimulator,
        MobilePlatform::Android,
        MobilePlatform::VisionOs,
    ];
    let mut i: usize = 0;
    let ghost order = seq![
        MobilePlatform::IosDevice,
        MobilePlatform::IosSimulator,
        MobilePlatform::Android,
        MobilePlatform::VisionOs,
    ];
    assert(ps@ == order);
    while i < 4
        invariant
            i <= 4,
            ps@ == order,
            strs(r@) == missing_prefix(t.rust_targets@, order, i as int),
        decreases 4 - i,
    {
        let p = ps[i];
        let triple = p.triple();
        if !t.has_rust_target(triple) {
            r.push(owned(triple));
        }
        assert(strs(r@) =~= missing_prefix(t.rust_targets@, order, i + 1));
        i = i + 1;
    }
    assert(missing_prefix(t.rust_targets@, order, 4) =~= missing_triples(t.rust_targets@)) by {
        reveal_with_fuel(missing_prefix, 5);
    }
    r
}

/// The missing triples among the first `k` platforms of `order`.
pub open spec fn missing_prefix(targets: Seq<String>, order: Seq<MobilePlatform>, k: int) -> Seq<
    Seq<char>,
>
    decreases k,
{
    if k <= 0 {
        Seq::empty()
    } else {
        missing_prefix(targets, order, k - 1) + crate::mobile_toolchain::missing_of(
            targets,
            order[k - 1],
        )
    }
}

/// "rustup target add" and the triples, separated by spaces.
pub open spec fn rustup_add_spec(triples: Seq<String>) -> Seq<char> {
    "rustup target add "@ + join(strs(triples), " "@)
}

/// The command that installs the given targets.
pub fn rustup_add_command(triples: &Vec<String>) -> (r: String)
    ensures
        r@ == rustup_add_spec(triples@),
{
    let mut parts: Vec<Vec<char>> = Vec::new();
    let mut i: usize = 0;
    while i < triples.len()
        invariant
            i <= triples@.len(),
            parts@.len() == i,
            forall|k: int| 0 <= k < i ==> (#[trigger] parts@[k])@ == triples@[k]@,
        decreases triples@.len() - i,
    {
        parts.push(chars_of(triples[i].as_str()));
        i = i + 1;
    }
    assert(views(parts@) =~= strs(triples@));
    let joined = join_chars(parts.as_slice(), " ");
    let mut out = owned("rustup target add ");
    push_seq(&mut out, joined.as_slice());
    out
}

// ───────────────────────── run target picker ─────────────────────────

/// A selection as a kind (0 none, 1 iOS simulator, 2 iOS device, 3 Android)
/// and its device id.
pub open spec fn selection_view(s: RunTargetSelection) -> (int, Seq<char>) {
    match s {
        RunTargetSelection::Unselected => (0, Seq::empty()),
        RunTargetSelection::IosSim { udid } => (1, udid@),
        RunTargetSelection::IosDevice { udid } => (2, udid@),
        RunTargetSelection::Android { serial } => (3, serial@),
    }
}

/// Whether the picker's label of a selection can be made: an iOS UDID is
/// cut after its first 8 bytes, which must then end a character.
pub open spec fn selection_label_ok(s: RunTargetSelection) -> bool {
    match s {
        RunTargetSelection::IosSim { udid } => short_ok(udid@),
        RunTargetSelection::IosDevice { udid } => short_ok(udid@),
        _ => true,
    }
}

/// The picker's label of the current selection.
pub open spec fn selection_label_spec(s: RunTargetSelection) -> Seq<char> {
    match s {
        RunTargetSelection::Unselected => "(none)"@,
        RunTargetSelection::IosSim { udid } => "iOS Sim "@ + short_spec(udid@),
        RunTargetSelection::IosDevice { udid } => "iOS Device "@ + short_spec(udid@),
        RunTargetSelection::Android { serial } => "Android "@ + serial@,
    }
}

/// The picker's label of the current selection.
pub fn selection_label(s: &RunTargetSelection) -> (r: String)
    requires
        selection_label_ok(*s),
    ensures
        r@ == selection_label_spec(*s),
{
    match s {
        RunTargetSelection::Unselected => owned("(none)"),
        RunTargetSelection::IosSim { udid } => {
            let mut out = owned("iOS Sim ");
            let id = short_id(udid.as_str());
            push_str(&mut out, id.as_str());
            out
        },
        RunTargetSelection::IosDevice { udid } => {
            let mut out = owned("iOS Device ");
            let id = short_id(udid.as_str());
            push_str(&mut out, id.as_str());
            out
        },
        RunTargetSelection::Android { serial } => {
            let mut out = owned("Android ");
            push_str(&mut out, serial.as_str());
            out
        },
    }
}

/// The choices of the picker, each as a selection view and its label.
pub open spec fn option_views(v: Seq<(RunTargetSelection, String)>) -> Seq<
    ((int, Seq<char>), Seq<char>),
> {
    v.map_values(|o: (RunTargetSelection, String)| (selection_view(o.0), o.1@))
}

/// The choices for the iOS simulators among `sims`, in order.
pub open spec fn sim_options(sims: Seq<Simulator>) -> Seq<((int, Seq<char>), Seq<char>)>
    decreases sims.len(),
{
    if sims.len() == 0 {
        Seq::empty()
    } else {
        let rest = sim_options(sims.drop_last());
        let s = sims.last();
        if s.family == SimFamily::Ios {
            rest.push(((1, s.udid@), "iOS Sim — "@ + s.name@ + " ("@ + s.runtime@ + ")"@))
        } else {
            rest
        }
    }
}

/// The picker's label of an Android device.
pub open spec fn device_option_label(d: AdbDevice) -> Seq<char> {
    let auth = if d.authorised {
        Seq::empty()
    } else {
        " (unauthorised)"@
    };
    if d.model@.len() == 0 {
        "Android — "@ + d.serial@ + auth
    } else {
        "Android — "@ + d.model@ + " "@ + d.serial@ + auth
    }
}

/// The choices for the Android devices, in order.
pub open spec fn device_options(ds: Seq<AdbDevice>) -> Seq<((int, Seq<char>), Seq<char>)> {
    ds.map_values(|d: AdbDevice| ((3, d.serial@), device_option_label(d)))
}

/// All choices of the picker: none, then the iOS simulators, then the
/// Android devices.
pub open spec fn run_target_options_spec(t: MobileToolchain) -> Seq<((int, Seq<char>), Seq<char>)> {
    seq![((0, Seq::<char>::empty()), "(none)"@)] + match t.xcode {
        Some(x) => sim_options(x.simulators@),
        None => Seq::empty(),
    } + match t.android {
        Some(a) => device_options(a.devices@),
        None => Seq::empty(),
    }
}

/// Appends the picker's choices for the iOS simulators.
fn push_sim_options(out: &mut Vec<(RunTargetSelection, String)>, sims: &Vec<Simulator>)
    ensures
        option_views(final(out)@) == option_views(old(out)@) + sim_options(sims@),
{
    let ghost start = option_views(out@);
    let mut i: usize = 0;
    assert(sims@.take(0) =~= Seq::<Simulator>::empty());
    assert(option_views(out@) =~= start + sim_options(sims@.take(0)));
    while i < sims.len()
        invariant
            i <= sims@.len(),
            option_views(out@) == start + sim_options(sims@.take(i as int)),
        decreases sims@.len() - i,
    {
        let s = &sims[i];
        assert(sims@.take(i + 1).drop_last() =~= sims@.take(i as int));
        if s.family == SimFamily::Ios {
            let mut label = owned("iOS Sim — ");
            push_str(&mut label, s.name.as_str());
            push_str(&mut label, " (");
            push_str(&mut label, s.runtime.as_str());
            push_str(&mut label, ")");
            let sel = RunTargetSelection::IosSim { udid: owned(s.udid.as_str()) };
            let ghost before = out@;
            out.push((sel, label));
            assert(option_views(out@) =~= option_views(before).push(
                ((1int, s.udid@), "iOS Sim — "@ + s.name@ + " ("@ + s.runtime@ + ")"@),
            ));
        }
        assert(option_views(out@) =~= start + sim_options(sims@.take(i + 1)));
        i = i + 1;
    }
    assert(sims@.take(sims@.len() as int) =~= sims@);
}

/// The picker's label of an Android device.
fn device_option_text(d: &AdbDevice) -> (r: String)
    ensures
        r@ == device_option_label(*d),
{
    let mut s = owned("Android — ");
    if d.model.as_str().unicode_len() != 0 {
        push_str(&mut s, d.model.as_str());
        push_str(&mut s, " ");
    }
    push_str(&mut s, d.serial.as_str());
    if !d.authorised {
        push_str(&mut s, " (unauthorised)");
    }
    assert(s@ =~= device_option_label(*d));
    s
}

/// Appends the picker's choices for the Android devices.
fn push_device_options(out: &mut Vec<(RunTargetSelection, String)>, ds: &Vec<AdbDevice>)
    ensures
        option_views(final(out)@) == option_views(old(out)@) + device_options(ds@),
{
    let ghost start = option_views(out@);
    let mut i: usize = 0;
    assert(option_views(out@) =~= start + device_options(ds@.take(0)));
    while i < ds.len()
        invariant
            i <= ds@.len(),
            option_views(out@) == start + device_options(ds@.take(i as int)),
        decreases ds@.len() - i,
    {
        let d = &ds[i];
        let label = device_option_text(d);
        let sel = RunTargetSelection::Android { serial: owned(d.serial.as_str()) };
        let ghost before = out@;
        out.push((sel, label));
        assert(option_views(out@) =~= option_views(before).push(((3int, d.serial@), device_option_label(*d))));
        assert(device_options(ds@.take(i + 1)) =~= device_options(ds@.take(i as int)).push(((3int, d.serial@), device_option_label(*d))));
        assert(option_views(out@) =~= start + device_options(ds@.take(i + 1)));
        i = i + 1;
    }
    assert(ds@.take(ds@.len() as int) =~= ds@);
}

/// The choices of the run target picker with their labels: none, each iOS
/// simulator, then each Android device.
pub fn run_target_options(t: &MobileToolchain) -> (r: Vec<(RunTargetSelection, String)>)
    ensures
        option_views(r@) == run_target_options_spec(*t),
{
    let mut out: Vec<(RunTargetSelection, String)> = Vec::new();
    out.push((RunTargetSelection::Unselected, owned("(none)")));
    assert(option_views(out@) =~= seq![((0, Seq::<char>::empty()), "(none)"@)]);
    match &t.xcode {
        Some(x) => push_sim_options(&mut out, &x.simulators),
        None => {},
    }
    match &t.android {
        Some(a) => push_device_options(&mut out, &a.devices),
        None => {},
    }
    assert(option_views(out@) =~= run_target_options_spec(*t));
    out
}

/// Whether Run can be pressed: a target is picked and an artifact is named.
pub fn run_ready(sel: &RunTargetSelection, artifact: &str) -> (r: bool)
    ensures
        r == (!(sel is Unselected) && artifact@.len() > 0),
{
    let picked = match sel {
        RunTargetSelection::Unselected => false,
        _ => true,
    };
    picked && artifact.unicode_len() > 0
}

/// Whether the run section asks for an Android package and activity (and
/// not for a bundle id).
pub fn asks_for_package(sel: &RunTargetSelection) -> (r: bool)
    ensures
        r == sel is Android,
{
    match sel {
        RunTargetSelection::Android { .. } => true,
        _ => false,
    }
}

// ───────────────────────── the log ─────────────────────────

/// The colour of a log line of each severity.
pub open spec fn severity_rgb(s: LogSeverity) -> (u8, u8, u8) {
    match s {
        LogSeverity::Panic => (255, 100, 200),
        LogSeverity::Error => (220, 80, 80),
        LogSeverity::Warn => (220, 180, 80),
        LogSeverity::Info => (180, 200, 220),
        LogSeverity::Debug => (170, 170, 170),
        LogSeverity::Trace => (140, 140, 140),
        LogSeverity::Unknown => (200, 200, 200),
    }
}

/// The colour of a log line of the given severity.
pub fn severity_color(s: LogSeverity) -> (c: Rgb)
    ensures
        (c.r, c.g, c.b) == severity_rgb(s),
{
    match s {
        LogSeverity::Panic => Rgb { r: 255, g: 100, b: 200 },
        LogSeverity::Error => Rgb { r: 220, g: 80, b: 80 },
        LogSeverity::Warn => Rgb { r: 220, g: 180, b: 80 },
        LogSeverity::Info => Rgb { r: 180, g: 200, b: 220 },
        LogSeverity::Debug => Rgb { r: 170, g: 170, b: 170 },
        LogSeverity::Trace => Rgb { r: 140, g: 140, b: 140 },
        LogSeverity::Unknown => Rgb { r: 200, g: 200, b: 200 },
    }
}

} // verus!
