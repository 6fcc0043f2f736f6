//! The mobile toolchain panel's logic: the one-click stage captions, the
//! run-target selection, and the doctor report built from a toolchain
//! snapshot.
use crate::mobile_types::{AndroidInstall, MobileToolchain, SimFamily, Simulator, XcodeInstall, has_target};
use crate::one_click::{OneClickError, OneClickStage, stage_label_spec};
use crate::probe::strs;
use crate::runner::{MobileTarget, exit_code_debug, push_exit_code, short, short_ok, short_spec};
use crate::text::{chars_of, decimal, join, join_chars, join_path, join_path_str, owned, push_seq, push_str, push_usize, views};
use vstd::prelude::*;

verus! {

// ───────────────────────── one-click stage captions ─────────────────────────

/// What a running one-click session is doing, kept for its caption.
#[derive(Debug, Clone, Copy, PartialEq, Eq, Structural)]
pub enum OneClickStageLabel {
    Install,
    Init,
    RunIos,
    RunAndroid,
    InstallRustTargets,
    DownloadIosSimRuntime,
}

pub open spec fn stage_human_spec(s: OneClickStageLabel) -> Seq<char> {
    match s {
        OneClickStageLabel::Install => "Installing cargo-mobile2"@,
        OneClickStageLabel::Init => "Initializing mobile project"@,
        OneClickStageLabel::RunIos => "Running on iOS Simulator"@,
        OneClickStageLabel::RunAndroid => "Running on Android"@,
        OneClickStageLabel::InstallRustTargets => "Installing rustup targets"@,
        OneClickStageLabel::DownloadIosSimRuntime => "Downloading iOS Simulator runtime"@,
    }
}

impl OneClickStageLabel {
    /// The caption shown while the stage runs.
    pub fn human(self) -> (r: &'static str)
        ensures
            r@ == stage_human_spec(self),
    {
        match self {
            OneClickStageLabel::Install => "Installing cargo-mobile2",
            OneClickStageLabel::Init => "Initializing mobile project",
            OneClickStageLabel::RunIos => "Running on iOS Simulator",
            OneClickStageLabel::RunAndroid => "Running on Android",
            OneClickStageLabel::InstallRustTargets => "Installing rustup targets",
            OneClickStageLabel::DownloadIosSimRuntime => "Downloading iOS Simulator runtime",
        }
    }
}

/// The log line that closes a one-click session:
/// `─── <caption> exited with code <code> ───`.
pub fn session_exit_line(stage: OneClickStageLabel, code: Option<i32>) -> (r: String)
    ensures
        r@ == "\u{2500}\u{2500}\u{2500} "@ + stage_human_spec(stage) + " exited with code "@
            + exit_code_debug(code) + " \u{2500}\u{2500}\u{2500}"@,
{
    let mut s = owned("\u{2500}\u{2500}\u{2500} ");
    push_str(&mut s, stage.human());
    push_str(&mut s, " exited with code ");
    push_exit_code(&mut s, code);
    push_str(&mut s, " \u{2500}\u{2500}\u{2500}");
    s
}

/// `[<stage label>] <message>`.
pub fn format_one_click_err(e: &OneClickError) -> (r: String)
    ensures
        r@ == "["@ + stage_label_spec(e.stage) + "] "@ + e.message@,
{
    let mut out = owned("[");
    push_str(&mut out, e.stage.label());
    push_str(&mut out, "] ");
    push_str(&mut out, e.message.as_str());
    out
}

/// An id cut to its first 8 bytes followed by `…` when longer.
pub fn short_id(s: &str) -> (r: String)
    requires
        short_ok(s@),
    ensures
        r@ == short_spec(s@),
{
    short(s)
}

// ───────────────────────── run target ─────────────────────────

/// The device picked in the run section.
#[derive(Debug, Clone, PartialEq, Eq)]
pub enum RunTargetSelection {
    /// Nothing picked yet.
    Unselected,
    IosSim { udid: String },
    IosDevice { udid: String },
    Android { serial: String },
}

impl Default for RunTargetSelection {
    fn default() -> (r: Self)
        ensures
            r is Unselected,
    {
        RunTargetSelection::Unselected
    }
}

/// The launch target for a selection and the run settings; none when
/// nothing is selected.
pub open spec fn build_target_spec(
    sel: RunTargetSelection,
    bundle_id: Seq<char>,
    package_name: Seq<char>,
    activity: Seq<char>,
) -> Option<(int, Seq<char>, Seq<char>, Seq<char>)> {
    match sel {
        RunTargetSelection::Unselected => None,
        RunTargetSelection::IosSim { udid } => Some((0, udid@, bundle_id, Seq::empty())),
        RunTargetSelection::IosDevice { udid } => Some((1, udid@, bundle_id, Seq::empty())),
        RunTargetSelection::Android { serial } => Some((2, serial@, package_name, activity)),
    }
}

/// A launch target in the shape of `build_target_spec`.
pub open spec fn target_shape(t: MobileTarget) -> (int, Seq<char>, Seq<char>, Seq<char>) {
    match t {
        MobileTarget::IosSim { udid, bundle_id } => (0, udid@, bundle_id@, Seq::empty()),
        MobileTarget::IosDevice { udid, bundle_id } => (1, udid@, bundle_id@, Seq::empty()),
        MobileTarget::Android { serial, package_name, activity } => (
            2,
            serial@,
            package_name@,
            activity@,
        ),
    }
}

/// The launch target for the selected device and the run settings.
pub fn build_target(sel: &RunTargetSelection, bundle_id: &str, package_name: &str, activity: &str) -> (r:
    Option<MobileTarget>)
    ensures
        r is None <==> build_target_spec(*sel, bundle_id@, package_name@, activity@) is None,
        r matches Some(t) ==> build_target_spec(*sel, bundle_id@, package_name@, activity@) == Some(
            target_shape(t),
        ),
{
    match sel {
        RunTargetSelection::Unselected => None,
        RunTargetSelection::IosSim { udid } => Some(
            MobileTarget::IosSim { udid: owned(udid.as_str()), bundle_id: owned(bundle_id) },
        ),
        RunTargetSelection::IosDevice { udid } => Some(
            MobileTarget::IosDevice { udid: owned(udid.as_str()), bundle_id: owned(bundle_id) },
        ),
        RunTargetSelection::Android { serial } => Some(
            MobileTarget::Android {
                serial: owned(serial.as_str()),
                package_name: owned(package_name),
                activity: owned(activity),
            },
        ),
    }
}

// ───────────────────────── panel state ─────────────────────────

/// The mobile toolchain panel's state, apart from the live processes.
#[derive(Debug)]
pub struct MobileToolchainState {
    pub toolchain: MobileToolchain,
    /// Whether a probe has run or a cached snapshot was loaded.
    pub probed: bool,
    pub last_error: Option<String>,
    pub run_target: RunTargetSelection,
    /// The pre-built artifact to run (`.app` or `.apk`).
    pub run_artifact: String,
    pub run_bundle_id: String,
    pub run_package_name: String,
    pub run_activity: String,
    pub run_error: Option<String>,
    /// The cached `cargo mobile --version` result; none until probed.
    pub one_click_installed: Option<bool>,
    pub doctor_report: String,
    pub doctor_open: bool,
}

impl Default for MobileToolchainState {
    fn default() -> (s: Self)
        ensures
            !s.probed,
            s.last_error is None,
            s.run_target is Unselected,
            s.one_click_installed is None,
            s.doctor_report@.len() == 0,
            !s.doctor_open,
            s.toolchain.xcode is None && s.toolchain.android is None && s.toolchain.rust_targets@.len() == 0,
    {
        MobileToolchainState {
            toolchain: MobileToolchain::default(),
            probed: false,
            last_error: None,
            run_target: RunTargetSelection::Unselected,
            run_artifact: String::new(),
            run_bundle_id: String::new(),
            run_package_name: String::new(),
            run_activity: String::new(),
            run_error: None,
            one_click_installed: None,
            doctor_report: String::new(),
            doctor_open: false,
        }
    }
}

impl MobileToolchainState {
    /// The initial state: the cached snapshot when there is one (counted as
    /// probed), otherwise the empty default.
    pub fn from_cache_or_default(cache: Option<MobileToolchain>) -> (s: Self)
        ensures
            s.probed == cache is Some,
            cache matches Some(t) ==> s.toolchain == t,
            s.last_error is None,
            s.one_click_installed is None,
    {
        let mut s = Self::default();
        match cache {
            Some(t) => {
                s.toolchain = t;
                s.probed = true;
            },
            None => {},
        }
        s
    }

    /// Takes a fresh probe; the cargo-mobile2 cache is left as it was.
    pub fn refresh(&mut self, probed: MobileToolchain)
        ensures
            final(self).toolchain == probed,
            final(self).probed,
            final(self).last_error is None,
            final(self).one_click_installed == old(self).one_click_installed,
            final(self).run_target == old(self).run_target,
            final(self).run_artifact == old(self).run_artifact,
            final(self).run_bundle_id == old(self).run_bundle_id,
            final(self).run_package_name == old(self).run_package_name,
            final(self).run_activity == old(self).run_activity,
            final(self).run_error == old(self).run_error,
            final(self).doctor_report == old(self).doctor_report,
            final(self).doctor_open == old(self).doctor_open,
    {
        self.toolchain = probed;
        self.probed = true;
        self.last_error = None;
    }

    /// Takes the codesign identities; without Xcode nothing changes.
    pub fn refresh_codesign_identities(&mut self, ids: Vec<crate::mobile_types::CodesignIdentity>) -> (changed: bool)
        ensures
            changed == old(self).toolchain.xcode is Some,
            changed ==> (final(self).toolchain.xcode matches Some(x) && x.codesign_identities == ids
                && (old(self).toolchain.xcode matches Some(ox) && x.developer_dir == ox.developer_dir
                && x.version == ox.version && x.sdks == ox.sdks && x.simulators == ox.simulators)),
            final(self).toolchain.android == old(self).toolchain.android,
            final(self).toolchain.rust_targets == old(self).toolchain.rust_targets,
            !changed ==> final(self).toolchain == old(self).toolchain,
            final(self).one_click_installed == old(self).one_click_installed,
    {
        match &mut self.toolchain.xcode {
            Some(x) => {
                x.codesign_identities = ids;
                true
            },
            None => false,
        }
    }

    /// The `adb` binary to ask for devices, when the SDK has one.
    pub fn adb_path(&self) -> (r: Option<String>)
        ensures
            r matches Some(p) ==> self.toolchain.android matches Some(a) && a.adb matches Some(q) && p@ == q@,
            r is None ==> !(self.toolchain.android matches Some(a) && a.adb is Some),
    {
        match &self.toolchain.android {
            Some(a) => match &a.adb {
                Some(p) => Some(owned(p.as_str())),
                None => None,
            },
            None => None,
        }
    }

    /// Takes the devices `adb` reported; without an SDK nothing changes.
    pub fn refresh_adb_devices(&mut self, devices: Vec<crate::mobile_types::AdbDevice>) -> (changed: bool)
        ensures
            changed == old(self).toolchain.android is Some,
            changed ==> (final(self).toolchain.android matches Some(a) && a.devices == devices
                && (old(self).toolchain.android matches Some(oa) && a.sdk_root == oa.sdk_root && a.ndk == oa.ndk
                && a.platforms == oa.platforms && a.build_tools == oa.build_tools && a.adb == oa.adb)),
            final(self).toolchain.xcode == old(self).toolchain.xcode,
            final(self).toolchain.rust_targets == old(self).toolchain.rust_targets,
            !changed ==> final(self).toolchain == old(self).toolchain,
            final(self).one_click_installed == old(self).one_click_installed,
    {
        match &mut self.toolchain.android {
            Some(a) => {
                a.devices = devices;
                true
            },
            None => false,
        }
    }

    /// A one-click session ended: install, init and run can all change
    /// whether cargo-mobile2 is installed, so the cached answer is dropped.
    pub fn one_click_session_ended(&mut self)
        ensures
            final(self).one_click_installed is None,
            final(self).toolchain == old(self).toolchain,
            final(self).probed == old(self).probed,
    {
        self.one_click_installed = None;
    }

    /// The launch target for the selected device and the run settings.
    pub fn run_target_for_launch(&self) -> (r: Option<MobileTarget>)
        ensures
            r is None <==> build_target_spec(self.run_target, self.run_bundle_id@, self.run_package_name@, self.run_activity@) is None,
            r matches Some(t) ==> build_target_spec(self.run_target, self.run_bundle_id@, self.run_package_name@, self.run_activity@) == Some(target_shape(t)),
    {
        build_target(&self.run_target, self.run_bundle_id.as_str(), self.run_package_name.as_str(), self.run_activity.as_str())
    }
}

// ───────────────────────── mobile platforms ─────────────────────────

/// The mobile platforms whose Rust targets the panel checks.
#[derive(Debug, Clone, Copy, PartialEq, Eq, Structural)]
pub enum MobilePlatform {
    IosDevice,
    IosSimulator,
    Android,
    VisionOs,
}

pub open spec fn platform_label_spec(p: MobilePlatform) -> Seq<char> {
    match p {
        MobilePlatform::IosDevice => "iOS Device"@,
        MobilePlatform::IosSimulator => "iOS Simulator"@,
        MobilePlatform::Android => "Android"@,
        MobilePlatform::VisionOs => "visionOS"@,
    }
}

pub open spec fn platform_triple_spec(p: MobilePlatform) -> Seq<char> {
    match p {
        MobilePlatform::IosDevice => "aarch64-apple-ios"@,
        MobilePlatform::IosSimulator => "aarch64-apple-ios-sim"@,
        MobilePlatform::Android => "aarch64-linux-android"@,
        MobilePlatform::VisionOs => "aarch64-apple-visionos"@,
    }
}

impl MobilePlatform {
    pub fn label(self) -> (r: &'static str)
        ensures
            r@ == platform_label_spec(self),
    {
        match self {
            MobilePlatform::IosDevice => "iOS Device",
            MobilePlatform::IosSimulator => "iOS Simulator",
            MobilePlatform::Android => "Android",
            MobilePlatform::VisionOs => "visionOS",
        }
    }

    /// The rustup triple of the platform.
    pub fn triple(self) -> (r: &'static str)
        ensures
            r@ == platform_triple_spec(self),
    {
        match self {
            MobilePlatform::IosDevice => "aarch64-apple-ios",
            MobilePlatform::IosSimulator => "aarch64-apple-ios-sim",
            MobilePlatform::Android => "aarch64-linux-android",
            MobilePlatform::VisionOs => "aarch64-apple-visionos",
        }
    }
}

// ───────────────────────── doctor report ─────────────────────────

/// `✓` for a passing check, `✗` for a failing one.
pub open spec fn mark(ok: bool) -> Seq<char> {
    if ok { "\u{2713}"@ } else { "\u{2717}"@ }
}

/// How many of the simulators belong to a family.
pub open spec fn count_family(s: Seq<Simulator>, f: SimFamily) -> nat
    decreases s.len(),
{
    if s.len() == 0 {
        0
    } else {
        count_family(s.drop_last(), f) + if s.last().family == f { 1nat } else { 0nat }
    }
}

pub open spec fn xcode_text(x: Option<XcodeInstall>) -> Seq<char> {
    match x {
        Some(x) => "- \u{2713} Xcode "@ + x.version@ + "\n"@ + "- Developer dir: `"@ + x.developer_dir@ + "`\n"@
            + "- SDKs: "@ + decimal(x.sdks@.len()) + "\n"@ + "- Simulators: "@ + decimal(
            count_family(x.simulators@, SimFamily::Ios),
        ) + " iOS, "@ + decimal(count_family(x.simulators@, SimFamily::VisionOs)) + " visionOS\n"@
            + "- Codesign identities: "@ + decimal(x.codesign_identities@.len()) + "\n"@,
        None => "- \u{2717} Xcode not detected\n"@,
    }
}

pub open spec fn xcode_issues(x: Option<XcodeInstall>) -> Seq<Seq<char>> {
    match x {
        Some(x) => if count_family(x.simulators@, SimFamily::Ios) == 0 {
            seq!["No iOS Simulator runtime installed"@]
        } else {
            Seq::empty()
        },
        None => seq!["Xcode missing"@],
    }
}

pub open spec fn xcode_steps(x: Option<XcodeInstall>, host_is_macos: bool) -> Seq<Seq<char>> {
    match x {
        Some(x) => (if count_family(x.simulators@, SimFamily::Ios) == 0 {
            seq!["Download an iOS Simulator runtime: `xcodebuild -downloadPlatform iOS` (or click \"Download iOS Simulator runtime\" in this panel)"@]
        } else {
            Seq::empty()
        }) + (if x.codesign_identities@.len() == 0 {
            seq!["(optional, real-device only) Sign in with your Apple ID in Xcode to populate codesign identities."@]
        } else {
            Seq::empty()
        }),
        None => if host_is_macos {
            seq!["Install Xcode: `xcode-select --install`"@]
        } else {
            seq!["iOS / visionOS builds require macOS \u{2014} switch host or skip these targets."@]
        },
    }
}

pub open spec fn android_text(a: Option<AndroidInstall>) -> Seq<char> {
    "\n## Android SDK\n"@ + match a {
        Some(a) => "- \u{2713} SDK root: `"@ + a.sdk_root@ + "`\n"@ + match a.ndk {
            Some(n) => "- NDK "@ + n.version@ + " at `"@ + n.root@ + "`\n"@,
            None => "- \u{2717} NDK missing\n"@,
        } + if a.adb is None {
            "- \u{2717} adb not found in platform-tools\n"@
        } else {
            Seq::empty()
        },
        None => "- \u{2717} Android SDK not detected\n"@,
    }
}

pub open spec fn android_issues(a: Option<AndroidInstall>) -> Seq<Seq<char>> {
    match a {
        Some(a) => (if a.ndk is None {
            seq!["Android NDK missing"@]
        } else {
            Seq::empty()
        }) + (if a.adb is None {
            seq!["`adb` missing"@]
        } else {
            Seq::empty()
        }),
        None => seq!["Android SDK missing"@],
    }
}

pub open spec fn android_steps(a: Option<AndroidInstall>) -> Seq<Seq<char>> {
    match a {
        Some(a) => (if a.ndk is None {
            seq!["Install NDK via Android Studio (SDK Manager \u{2192} SDK Tools \u{2192} NDK (Side by side))."@]
        } else {
            Seq::empty()
        }) + (if a.adb is None {
            seq!["Install platform-tools via Android Studio SDK Manager."@]
        } else {
            Seq::empty()
        }),
        None => seq!["Install Android Studio (or the command-line tools) and set `$ANDROID_HOME` to the SDK root."@],
    }
}

/// The report line of one platform's Rust target.
pub open spec fn target_line(targets: Seq<String>, p: MobilePlatform) -> Seq<char> {
    "- "@ + mark(has_target(targets, platform_triple_spec(p))) + " "@ + platform_label_spec(p) + " ("@
        + platform_triple_spec(p) + ")\n"@
}

/// The triple of `p` when it is not installed.
pub open spec fn missing_of(targets: Seq<String>, p: MobilePlatform) -> Seq<Seq<char>> {
    if has_target(targets, platform_triple_spec(p)) {
        Seq::empty()
    } else {
        seq![platform_triple_spec(p)]
    }
}

/// The mobile triples that are not installed, in the panel's order.
pub open spec fn missing_triples(targets: Seq<String>) -> Seq<Seq<char>> {
    missing_of(targets, MobilePlatform::IosDevice) + missing_of(targets, MobilePlatform::IosSimulator)
        + missing_of(targets, MobilePlatform::Android) + missing_of(targets, MobilePlatform::VisionOs)
}

pub open spec fn targets_text(targets: Seq<String>) -> Seq<char> {
    "\n## Rust mobile targets\n"@ + target_line(targets, MobilePlatform::IosDevice) + target_line(
        targets,
        MobilePlatform::IosSimulator,
    ) + target_line(targets, MobilePlatform::Android) + target_line(targets, MobilePlatform::VisionOs)
}

pub open spec fn targets_issues(targets: Seq<String>) -> Seq<Seq<char>> {
    let m = missing_triples(targets);
    if m.len() == 0 {
        Seq::empty()
    } else {
        seq![decimal(m.len()) + " Rust target(s) missing"@]
    }
}

pub open spec fn targets_steps(targets: Seq<String>) -> Seq<Seq<char>> {
    let m = missing_triples(targets);
    if m.len() == 0 {
        Seq::empty()
    } else {
        seq!["Install missing Rust targets: `rustup target add "@ + join(m, " "@) + "` (or click \"Install missing targets\" in this panel)"@]
    }
}

pub open spec fn cargo_text(one_click_installed: bool, toml_path: Seq<char>, toml_present: bool) -> Seq<
    char,
> {
    "\n## cargo-mobile2\n"@ + "- "@ + mark(one_click_installed) + " cargo-mobile2 installed\n"@ + "- "@ + mark(toml_present)
        + " mobile.toml ("@ + toml_path + ")\n"@
}

pub open spec fn cargo_issues(one_click_installed: bool, toml_present: bool) -> Seq<Seq<char>> {
    (if one_click_installed {
        Seq::empty()
    } else {
        seq!["cargo-mobile2 not installed"@]
    }) + (if toml_present {
        Seq::empty()
    } else {
        seq!["mobile.toml missing in project"@]
    })
}

pub open spec fn cargo_steps(one_click_installed: bool, toml_present: bool) -> Seq<Seq<char>> {
    (if one_click_installed {
        Seq::empty()
    } else {
        seq!["Install cargo-mobile2: `cargo install cargo-mobile2 --locked` (or click \"Install cargo-mobile2\" in this panel)"@]
    }) + (if toml_present {
        Seq::empty()
    } else {
        seq!["Initialize the project for mobile: `cargo mobile init` from the project root (or click \"Initialize for Mobile\" in this panel)."@]
    })
}

/// The items numbered from 1, each on a line of its own after `indent`.
pub open spec fn numbered(items: Seq<Seq<char>>, indent: Seq<char>) -> Seq<char>
    decreases items.len(),
{
    if items.len() == 0 {
        Seq::empty()
    } else {
        numbered(items.drop_last(), indent) + indent + decimal(items.len()) + ". "@ + items.last()
            + "\n"@
    }
}

pub open spec fn summary_text(issues: Seq<Seq<char>>) -> Seq<char> {
    "\n## Summary\n"@ + if issues.len() == 0 {
        "\u{2713} All checks passed \u{2014} `cargo apple run --release` should work for the iOS Simulator, and `cargo android run` for an Android emulator / device.\n"@
    } else {
        "\u{2717} "@ + decimal(issues.len()) + " issue(s) found:\n"@ + numbered(issues, "  "@)
    }
}

pub open spec fn steps_text(steps: Seq<Seq<char>>) -> Seq<char> {
    if steps.len() == 0 {
        Seq::empty()
    } else {
        "\n## Next steps\n"@ + numbered(steps, ""@)
    }
}

/// Every issue the report lists, in order.
pub open spec fn doctor_issues(t: MobileToolchain, one_click_installed: bool, toml_present: bool) -> Seq<
    Seq<char>,
> {
    xcode_issues(t.xcode) + android_issues(t.android) + targets_issues(t.rust_targets@) + cargo_issues(
        one_click_installed,
        toml_present,
    )
}

/// Every next step the report lists, in order.
pub open spec fn doctor_steps(
    t: MobileToolchain,
    one_click_installed: bool,
    toml_present: bool,
    host_is_macos: bool,
) -> Seq<Seq<char>> {
    xcode_steps(t.xcode, host_is_macos) + android_steps(t.android) + targets_steps(t.rust_targets@)
        + cargo_steps(one_click_installed, toml_present)
}

/// The doctor report: one section per toolchain, then the issues and the
/// next steps, numbered.
pub open spec fn doctor_report(
    t: MobileToolchain,
    project_root: Seq<char>,
    one_click_installed: bool,
    toml_present: bool,
    host_is_macos: bool,
) -> Seq<char> {
    "# BerryCode Mobile Doctor\n\n## Xcode\n"@ + xcode_text(t.xcode) + android_text(t.android) + targets_text(t.rust_targets@)
        + cargo_text(one_click_installed, join_path(project_root, "mobile.toml"@), toml_present)
        + summary_text(doctor_issues(t, one_click_installed, toml_present)) + steps_text(
        doctor_steps(t, one_click_installed, toml_present, host_is_macos),
    )
}

/// The report finds no issue exactly when Xcode is there with an iOS
/// simulator runtime, the Android SDK is there with its NDK and `adb`, every
/// mobile Rust target is installed, cargo-mobile2 is installed and the
/// project has its `mobile.toml`. Codesign identities are advisory and never
/// count as an issue.
pub proof fn lemma_doctor_all_clear(t: MobileToolchain, one_click_installed: bool, toml_present: bool)
    ensures
        doctor_issues(t, one_click_installed, toml_present).len() == 0 <==> {
            &&& t.xcode matches Some(x) && count_family(x.simulators@, SimFamily::Ios) > 0
            &&& t.android matches Some(a) && a.ndk is Some && a.adb is Some
            &&& has_target(t.rust_targets@, platform_triple_spec(MobilePlatform::IosDevice))
            &&& has_target(t.rust_targets@, platform_triple_spec(MobilePlatform::IosSimulator))
            &&& has_target(t.rust_targets@, platform_triple_spec(MobilePlatform::Android))
            &&& has_target(t.rust_targets@, platform_triple_spec(MobilePlatform::VisionOs))
            &&& one_click_installed
            &&& toml_present
        },
{
}

fn push_item(v: &mut Vec<String>, s: String)
    ensures
        strs(final(v)@) == strs(old(v)@).push(s@),
{
    v.push(s);
    assert(strs(v@) =~= strs(old(v)@).push(s@));
}

fn push_lit(v: &mut Vec<String>, s: &str)
    ensures
        strs(final(v)@) == strs(old(v)@).push(s@),
{
    push_item(v, owned(s));
}

fn push_mark(out: &mut String, ok: bool)
    ensures
        final(out)@ == old(out)@ + mark(ok),
{
    if ok {
        push_str(out, "\u{2713}");
    } else {
        push_str(out, "\u{2717}");
    }
}

pub(crate) fn count_sims(sims: &Vec<Simulator>, f: SimFamily) -> (n: usize)
    ensures
        n == count_family(sims@, f),
{
    let mut n: usize = 0;
    let mut i: usize = 0;
    while i < sims.len()
        invariant
            i <= sims@.len(),
            n <= i,
            n == count_family(sims@.take(i as int), f),
        decreases sims@.len() - i,
    {
        assert(sims@.take(i + 1).drop_last() =~= sims@.take(i as int));
        if sims[i].family == f {
            n = n + 1;
        }
        i = i + 1;
    }
    assert(sims@.take(sims@.len() as int) =~= sims@);
    n
}

fn doctor_xcode(
    out: &mut String,
    issues: &mut Vec<String>,
    steps: &mut Vec<String>,
    x: &Option<XcodeInstall>,
    host_is_macos: bool,
)
    ensures
        final(out)@ == old(out)@ + xcode_text(*x),
        strs(final(issues)@) == strs(old(issues)@) + xcode_issues(*x),
        strs(final(steps)@) == strs(old(steps)@) + xcode_steps(*x, host_is_macos),
{
    let ghost (o0, i0, s0) = (out@, strs(issues@), strs(steps@));
    match x {
        Some(x) => {
            push_str(out, "- \u{2713} Xcode ");
            push_str(out, x.version.as_str());
            push_str(out, "\n");
            push_str(out, "- Developer dir: `");
            push_str(out, x.developer_dir.as_str());
            push_str(out, "`\n");
            push_str(out, "- SDKs: ");
            push_usize(out, x.sdks.len());
            push_str(out, "\n");
            let ios = count_sims(&x.simulators, SimFamily::Ios);
            let xr = count_sims(&x.simulators, SimFamily::VisionOs);
            push_str(out, "- Simulators: ");
            push_usize(out, ios);
            push_str(out, " iOS, ");
            push_usize(out, xr);
            push_str(out, " visionOS\n");
            if ios == 0 {
                push_lit(issues, "No iOS Simulator runtime installed");
                push_lit(steps, "Download an iOS Simulator runtime: `xcodebuild -downloadPlatform iOS` (or click \"Download iOS Simulator runtime\" in this panel)");
            }
            push_str(out, "- Codesign identities: ");
            push_usize(out, x.codesign_identities.len());
            push_str(out, "\n");
            if x.codesign_identities.len() == 0 {
                push_lit(steps, "(optional, real-device only) Sign in with your Apple ID in Xcode to populate codesign identities.");
            }
            assert(out@ =~= o0 + xcode_text(Some(*x)));
            assert(strs(issues@) =~= i0 + xcode_issues(Some(*x)));
            assert(strs(steps@) =~= s0 + xcode_steps(Some(*x), host_is_macos));
        },
        None => {
            push_str(out, "- \u{2717} Xcode not detected\n");
            push_lit(issues, "Xcode missing");
            if host_is_macos {
                push_lit(steps, "Install Xcode: `xcode-select --install`");
            } else {
                push_lit(steps, "iOS / visionOS builds require macOS \u{2014} switch host or skip these targets.");
            }
            assert(strs(issues@) =~= i0 + xcode_issues(None));
            assert(strs(steps@) =~= s0 + xcode_steps(None, host_is_macos));
        },
    }
}

fn doctor_android(
    out: &mut String,
    issues: &mut Vec<String>,
    steps: &mut Vec<String>,
    a: &Option<AndroidInstall>,
)
    ensures
        final(out)@ == old(out)@ + android_text(*a),
        strs(final(issues)@) == strs(old(issues)@) + android_issues(*a),
        strs(final(steps)@) == strs(old(steps)@) + android_steps(*a),
{
    let ghost (o0, i0, s0) = (out@, strs(issues@), strs(steps@));
    push_str(out, "\n## Android SDK\n");
    match a {
        Some(a) => {
            push_str(out, "- \u{2713} SDK root: `");
            push_str(out, a.sdk_root.as_str());
            push_str(out, "`\n");
            match &a.ndk {
                Some(n) => {
                    push_str(out, "- NDK ");
                    push_str(out, n.version.as_str());
                    push_str(out, " at `");
                    push_str(out, n.root.as_str());
                    push_str(out, "`\n");
                },
                None => {
                    push_str(out, "- \u{2717} NDK missing\n");
                    push_lit(issues, "Android NDK missing");
                    push_lit(steps, "Install NDK via Android Studio (SDK Manager \u{2192} SDK Tools \u{2192} NDK (Side by side)).");
                },
            }
            if a.adb.is_none() {
                push_str(out, "- \u{2717} adb not found in platform-tools\n");
                push_lit(issues, "`adb` missing");
                push_lit(steps, "Install platform-tools via Android Studio SDK Manager.");
            }
            assert(out@ =~= o0 + android_text(Some(*a)));
            assert(strs(issues@) =~= i0 + android_issues(Some(*a)));
            assert(strs(steps@) =~= s0 + android_steps(Some(*a)));
        },
        None => {
            push_str(out, "- \u{2717} Android SDK not detected\n");
            push_lit(issues, "Android SDK missing");
            push_lit(steps, "Install Android Studio (or the command-line tools) and set `$ANDROID_HOME` to the SDK root.");
            assert(out@ =~= o0 + android_text(None));
            assert(strs(issues@) =~= i0 + android_issues(None));
            assert(strs(steps@) =~= s0 + android_steps(None));
        },
    }
}

fn doctor_target(out: &mut String, missing: &mut Vec<Vec<char>>, t: &MobileToolchain, p: MobilePlatform)
    ensures
        final(out)@ == old(out)@ + target_line(t.rust_targets@, p),
        views(final(missing)@) == views(old(missing)@) + missing_of(t.rust_targets@, p),
{
    let ghost (o0, m0) = (out@, views(missing@));
    let triple = p.triple();
    let installed = t.has_rust_target(triple);
    push_str(out, "- ");
    push_mark(out, installed);
    push_str(out, " ");
    push_str(out, p.label());
    push_str(out, " (");
    push_str(out, triple);
    push_str(out, ")\n");
    if !installed {
        missing.push(chars_of(triple));
    }
    assert(out@ =~= o0 + target_line(t.rust_targets@, p));
    assert(views(missing@) =~= m0 + missing_of(t.rust_targets@, p));
}

fn doctor_targets(out: &mut String, issues: &mut Vec<String>, steps: &mut Vec<String>, t: &MobileToolchain)
    ensures
        final(out)@ == old(out)@ + targets_text(t.rust_targets@),
        strs(final(issues)@) == strs(old(issues)@) + targets_issues(t.rust_targets@),
        strs(final(steps)@) == strs(old(steps)@) + targets_steps(t.rust_targets@),
{
    let ghost (o0, i0, s0) = (out@, strs(issues@), strs(steps@));
    push_str(out, "\n## Rust mobile targets\n");
    let mut missing: Vec<Vec<char>> = Vec::new();
    doctor_target(out, &mut missing, t, MobilePlatform::IosDevice);
    doctor_target(out, &mut missing, t, MobilePlatform::IosSimulator);
    doctor_target(out, &mut missing, t, MobilePlatform::Android);
    doctor_target(out, &mut missing, t, MobilePlatform::VisionOs);
    assert(views(missing@) =~= missing_triples(t.rust_targets@));
    assert(out@ =~= o0 + targets_text(t.rust_targets@));
    if missing.len() > 0 {
        let mut issue = String::new();
        push_usize(&mut issue, missing.len());
        push_str(&mut issue, " Rust target(s) missing");
        push_item(issues, issue);
        let mut step = owned("Install missing Rust targets: `rustup target add ");
        let joined = join_chars(missing.as_slice(), " ");
        push_seq(&mut step, joined.as_slice());
        push_str(&mut step, "` (or click \"Install missing targets\" in this panel)");
        push_item(steps, step);
    }
    assert(strs(issues@) =~= i0 + targets_issues(t.rust_targets@));
    assert(strs(steps@) =~= s0 + targets_steps(t.rust_targets@));
}

fn doctor_cargo(
    out: &mut String,
    issues: &mut Vec<String>,
    steps: &mut Vec<String>,
    one_click_installed: bool,
    toml_path: &str,
    toml_present: bool,
)
    ensures
        final(out)@ == old(out)@ + cargo_text(one_click_installed, toml_path@, toml_present),
        strs(final(issues)@) == strs(old(issues)@) + cargo_issues(one_click_installed, toml_present),
        strs(final(steps)@) == strs(old(steps)@) + cargo_steps(one_click_installed, toml_present),
{
    let ghost (o0, i0, s0) = (out@, strs(issues@), strs(steps@));
    push_str(out, "\n## cargo-mobile2\n");
    push_str(out, "- ");
    push_mark(out, one_click_installed);
    push_str(out, " cargo-mobile2 installed\n");
    if !one_click_installed {
        push_lit(issues, "cargo-mobile2 not installed");
        push_lit(steps, "Install cargo-mobile2: `cargo install cargo-mobile2 --locked` (or click \"Install cargo-mobile2\" in this panel)");
    }
    push_str(out, "- ");
    push_mark(out, toml_present);
    push_str(out, " mobile.toml (");
    push_str(out, toml_path);
    push_str(out, ")\n");
    if !toml_present {
        push_lit(issues, "mobile.toml missing in project");
        push_lit(steps, "Initialize the project for mobile: `cargo mobile init` from the project root (or click \"Initialize for Mobile\" in this panel).");
    }
    assert(out@ =~= o0 + cargo_text(one_click_installed, toml_path@, toml_present));
    assert(strs(issues@) =~= i0 + cargo_issues(one_click_installed, toml_present));
    assert(strs(steps@) =~= s0 + cargo_steps(one_click_installed, toml_present));
}

fn push_numbered(out: &mut String, items: &Vec<String>, indent: &str)
    ensures
        final(out)@ == old(out)@ + numbered(strs(items@), indent@),
{
    let ghost o0 = out@;
    let mut i: usize = 0;
    assert(strs(items@).take(0) =~= Seq::<Seq<char>>::empty());
    while i < items.len()
        invariant
            i <= items@.len(),
            out@ == o0 + numbered(strs(items@).take(i as int), indent@),
        decreases items@.len() - i,
    {
        assert(strs(items@).take(i + 1).drop_last() =~= strs(items@).take(i as int));
        assert(strs(items@).take(i + 1).last() == items@[i as int]@);
        push_str(out, indent);
        push_usize(out, i + 1);
        push_str(out, ". ");
        push_str(out, items[i].as_str());
        push_str(out, "\n");
        i = i + 1;
        assert(out@ =~= o0 + numbered(strs(items@).take(i as int), indent@));
    }
    assert(strs(items@).take(items@.len() as int) =~= strs(items@));
}

/// A Flutter-doctor-style report on the toolchain snapshot and the project:
/// a section per toolchain (Xcode, Android SDK, Rust mobile targets,
/// cargo-mobile2 and `mobile.toml`), then the issues found and the next
/// steps, numbered. Whether `mobile.toml` exists and whether the host is
/// macOS are read by the caller.
pub fn build_doctor_report(
    toolchain: &MobileToolchain,
    project_root: &str,
    one_click_installed: bool,
    toml_present: bool,
    host_is_macos: bool,
) -> (r: String)
    ensures
        r@ == doctor_report(*toolchain, project_root@, one_click_installed, toml_present, host_is_macos),
{
    let mut out = owned("# BerryCode Mobile Doctor\n\n## Xcode\n");
    let mut issues: Vec<String> = Vec::new();
    let mut steps: Vec<String> = Vec::new();
    assert(strs(issues@) =~= Seq::<Seq<char>>::empty());
    assert(strs(steps@) =~= Seq::<Seq<char>>::empty());
    doctor_xcode(&mut out, &mut issues, &mut steps, &toolchain.xcode, host_is_macos);
    doctor_android(&mut out, &mut issues, &mut steps, &toolchain.android);
    doctor_targets(&mut out, &mut issues, &mut steps, toolchain);
    let toml_path = join_path_str(project_root, "mobile.toml");
    doctor_cargo(&mut out, &mut issues, &mut steps, one_click_installed, toml_path.as_str(), toml_present);
    let ghost body = out@;
    assert(strs(issues@) =~= doctor_issues(*toolchain, one_click_installed, toml_present));
    assert(strs(steps@) =~= doctor_steps(*toolchain, one_click_installed, toml_present, host_is_macos));
    push_str(&mut out, "\n## Summary\n");
    if issues.len() == 0 {
        push_str(&mut out, "\u{2713} All checks passed \u{2014} `cargo apple run --release` should work for the iOS Simulator, and `cargo android run` for an Android emulator / device.\n");
    } else {
        push_str(&mut out, "\u{2717} ");
        push_usize(&mut out, issues.len());
        push_str(&mut out, " issue(s) found:\n");
        push_numbered(&mut out, &issues, "  ");
    }
    assert(out@ =~= body + summary_text(strs(issues@)));
    let ghost mid = out@;
    if steps.len() > 0 {
        push_str(&mut out, "\n## Next steps\n");
        push_numbered(&mut out, &steps, "");
        assert(out@ =~= mid + steps_text(strs(steps@)));
    } else {
        assert(out@ =~= mid + steps_text(strs(steps@)));
    }
    out
}

/// The report counts one issue for each of: Xcode missing or without an iOS
/// simulator runtime; the Android SDK missing; the SDK without its NDK; the
/// SDK without `adb` (whatever the NDK); some mobile Rust target missing;
/// cargo-mobile2 not installed; `mobile.toml` missing. A missing `adb` is
/// always listed as such.
pub proof fn lemma_doctor_issue_count(t: MobileToolchain, one_click_installed: bool, toml_present: bool)
    ensures
        doctor_issues(t, one_click_installed, toml_present).len() == (if t.xcode matches Some(x)
            && count_family(x.simulators@, SimFamily::Ios) > 0 {
            0int
        } else {
            1int
        }) + (if t.android is None {
            1int
        } else {
            0int
        }) + (if t.android matches Some(a) && a.ndk is None {
            1int
        } else {
            0int
        }) + (if t.android matches Some(a) && a.adb is None {
            1int
        } else {
            0int
        }) + (if has_target(t.rust_targets@, platform_triple_spec(MobilePlatform::IosDevice))
            && has_target(t.rust_targets@, platform_triple_spec(MobilePlatform::IosSimulator))
            && has_target(t.rust_targets@, platform_triple_spec(MobilePlatform::Android))
            && has_target(t.rust_targets@, platform_triple_spec(MobilePlatform::VisionOs)) {
            0int
        } else {
            1int
        }) + (if one_click_installed {
            0int
        } else {
            1int
        }) + (if toml_present {
            0int
        } else {
            1int
        }),
        (t.android matches Some(a) && a.adb is None) ==> doctor_issues(
            t,
            one_click_installed,
            toml_present,
        ).contains("`adb` missing"@),
{
    let xi = xcode_issues(t.xcode);
    let ai = android_issues(t.android);
    let ti = targets_issues(t.rust_targets@);
    let ci = cargo_issues(one_click_installed, toml_present);
    let all = doctor_issues(t, one_click_installed, toml_present);
    assert(all == xi + ai + ti + ci);
    if t.android matches Some(a) && a.adb is None {
        let k = xi.len() + ai.len() - 1;
        assert(all[k] == "`adb` missing"@);
    }
}

} // verus!
