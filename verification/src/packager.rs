//! Mobile artifact packagers and the cross-platform "build all"
//! dispatcher: which `rustup` target each platform builds for. Spawning
//! `cargo build` is left to the caller.
use crate::text::{chars_of, eq_str, owned, push_str};
use vstd::prelude::*;

verus! {

/// The `rustup` target a platform label needs: "iOS Simulator",
/// "iOS Device" and "Android" have one, other labels none.
pub open spec fn required_target_spec(label: Seq<char>) -> Option<Seq<char>> {
    if label == "iOS Simulator"@ {
        Some("aarch64-apple-ios-sim"@)
    } else if label == "iOS Device"@ {
        Some("aarch64-apple-ios"@)
    } else if label == "Android"@ {
        Some("aarch64-linux-android"@)
    } else {
        None
    }
}

/// Required `rustup` target triple per platform label.
pub fn required_rustup_target(platform_label: &str) -> (r: Option<&'static str>)
    ensures
        r matches Some(t) ==> required_target_spec(platform_label@) == Some(t@),
        r is None ==> required_target_spec(platform_label@) is None,
{
    let v = chars_of(platform_label);
    if eq_str(v.as_slice(), "iOS Simulator") {
        Some("aarch64-apple-ios-sim")
    } else if eq_str(v.as_slice(), "iOS Device") {
        Some("aarch64-apple-ios")
    } else if eq_str(v.as_slice(), "Android") {
        Some("aarch64-linux-android")
    } else {
        None
    }
}

#[derive(Debug, Clone, Copy, PartialEq, Eq, Structural)]
pub enum BuildAllPlatform {
    MacOs,
    Windows,
    Linux,
    Web,
    IosSimulator,
    IosDevice,
    Android,
}

pub open spec fn platform_label_spec(p: BuildAllPlatform) -> Seq<char> {
    match p {
        BuildAllPlatform::MacOs => "macOS"@,
        BuildAllPlatform::Windows => "Windows"@,
        BuildAllPlatform::Linux => "Linux"@,
        BuildAllPlatform::Web => "Web (WASM)"@,
        BuildAllPlatform::IosSimulator => "iOS Simulator"@,
        BuildAllPlatform::IosDevice => "iOS Device"@,
        BuildAllPlatform::Android => "Android"@,
    }
}

pub open spec fn platform_triple_spec(p: BuildAllPlatform) -> Seq<char> {
    match p {
        BuildAllPlatform::MacOs => "aarch64-apple-darwin"@,
        BuildAllPlatform::Windows => "x86_64-pc-windows-msvc"@,
        BuildAllPlatform::Linux => "x86_64-unknown-linux-gnu"@,
        BuildAllPlatform::Web => "wasm32-unknown-unknown"@,
        BuildAllPlatform::IosSimulator => "aarch64-apple-ios-sim"@,
        BuildAllPlatform::IosDevice => "aarch64-apple-ios"@,
        BuildAllPlatform::Android => "aarch64-linux-android"@,
    }
}

impl BuildAllPlatform {
    pub fn label(self) -> (r: &'static str)
        ensures
            r@ == platform_label_spec(self),
    {
        match self {
            BuildAllPlatform::MacOs => "macOS",
            BuildAllPlatform::Windows => "Windows",
            BuildAllPlatform::Linux => "Linux",
            BuildAllPlatform::Web => "Web (WASM)",
            BuildAllPlatform::IosSimulator => "iOS Simulator",
            BuildAllPlatform::IosDevice => "iOS Device",
            BuildAllPlatform::Android => "Android",
        }
    }

    pub fn target_triple(self) -> (r: &'static str)
        ensures
            r@ == platform_triple_spec(self),
    {
        match self {
            BuildAllPlatform::MacOs => "aarch64-apple-darwin",
            BuildAllPlatform::Windows => "x86_64-pc-windows-msvc",
            BuildAllPlatform::Linux => "x86_64-unknown-linux-gnu",
            BuildAllPlatform::Web => "wasm32-unknown-unknown",
            BuildAllPlatform::IosSimulator => "aarch64-apple-ios-sim",
            BuildAllPlatform::IosDevice => "aarch64-apple-ios",
            BuildAllPlatform::Android => "aarch64-linux-android",
        }
    }
}

/// Whether "build all" hands the platform to a mobile packager (the others
/// are not wired yet).
pub open spec fn is_mobile_platform(p: BuildAllPlatform) -> bool {
    p == BuildAllPlatform::IosSimulator || p == BuildAllPlatform::IosDevice || p
        == BuildAllPlatform::Android
}

pub open spec fn not_wired_message(p: BuildAllPlatform) -> Seq<char> {
    platform_label_spec(p) + " desktop / web build dispatch not yet wired into build_all (use the Build Settings panel for now). Tracked for v0.7.4."@
}

/// What "build all" does for one platform: the mobile platforms build for
/// their target triple; desktop and web give the "not yet wired" message.
pub fn build_dispatch(p: BuildAllPlatform) -> (r: Result<&'static str, String>)
    ensures
        is_mobile_platform(p) ==> (r matches Ok(t) && t@ == platform_triple_spec(p)),
        !is_mobile_platform(p) ==> (r matches Err(m) && m@ == not_wired_message(p)),
{
    match p {
        BuildAllPlatform::IosSimulator | BuildAllPlatform::IosDevice | BuildAllPlatform::Android => Ok(
            p.target_triple(),
        ),
        _ => {
            let mut m = owned(p.label());
            push_str(&mut m, " desktop / web build dispatch not yet wired into build_all (use the Build Settings panel for now). Tracked for v0.7.4.");
            Err(m)
        },
    }
}


/// How one platform's build went.
#[derive(Debug)]
pub enum BuildStatus {
    /// The build finished.
    Succeeded,
    Skipped(String),
    Failed(String),
}

/// One platform of a "build all" pass and how it went.
#[derive(Debug)]
pub struct PlatformBuildResult {
    pub platform: BuildAllPlatform,
    pub status: BuildStatus,
}

/// What "build all" starts, platform by platform and in the order given:
/// the target triple to build for, or the message of a platform that is
/// not dispatched. One platform's failure does not stop the others.
pub fn build_all(platforms: &Vec<BuildAllPlatform>) -> (r: Vec<(BuildAllPlatform, Result<&'static str, String>)>)
    ensures
        r@.len() == platforms@.len(),
        forall|i: int|
            0 <= i < r@.len() ==> (#[trigger] r@[i]).0 == platforms@[i] && (is_mobile_platform(
                platforms@[i],
            ) ==> (r@[i].1 matches Ok(t) && t@ == platform_triple_spec(platforms@[i]))) && (
            !is_mobile_platform(platforms@[i]) ==> (r@[i].1 matches Err(m) && m@ == not_wired_message(
                platforms@[i],
            ))),
{
    let mut r: Vec<(BuildAllPlatform, Result<&'static str, String>)> = Vec::new();
    let mut i: usize = 0;
    while i < platforms.len()
        invariant
            i <= platforms@.len(),
            r@.len() == i,
            forall|k: int|
                0 <= k < i ==> (#[trigger] r@[k]).0 == platforms@[k] && (is_mobile_platform(
                    platforms@[k],
                ) ==> (r@[k].1 matches Ok(t) && t@ == platform_triple_spec(platforms@[k]))) && (
                !is_mobile_platform(platforms@[k]) ==> (r@[k].1 matches Err(m) && m@
                    == not_wired_message(platforms@[k]))),
        decreases platforms@.len() - i,
    {
        let p = platforms[i];
        r.push((p, build_dispatch(p)));
        i = i + 1;
    }
    r
}

} // verus!
