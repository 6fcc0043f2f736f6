//! Toolchain data model: plain data filled in by the probes and read by the
//! mobile panel and the doctor report.
use std::time::SystemTime;
use vstd::prelude::*;

verus! {

#[verifier::external_type_specification]
#[verifier::external_body]
pub struct ExSystemTime(SystemTime);

/// Snapshot of every mobile / XR toolchain the editor knows about.
#[derive(Debug, Clone)]
pub struct MobileToolchain {
    pub xcode: Option<XcodeInstall>,
    pub android: Option<AndroidInstall>,
    /// Rust target triples reported as installed by `rustup` (no triple
    /// twice).
    pub rust_targets: Vec<String>,
    pub last_probed: Option<SystemTime>,
}

impl Default for MobileToolchain {
    fn default() -> (t: Self)
        ensures
            t.xcode is None,
            t.android is None,
            t.rust_targets@.len() == 0,
            t.last_probed is None,
    {
        MobileToolchain { xcode: None, android: None, rust_targets: Vec::new(), last_probed: None }
    }
}

/// Whether one of `targets` is `triple`.
pub open spec fn has_target(targets: Seq<String>, triple: Seq<char>) -> bool {
    exists|i: int| 0 <= i < targets.len() && #[trigger] targets[i]@ == triple
}

impl MobileToolchain {
    /// Whether `rustup target list --installed` reported the given triple.
    pub fn has_rust_target(&self, triple: &str) -> (r: bool)
        ensures
            r == has_target(self.rust_targets@, triple@),
    {
        let tv = crate::text::chars_of(triple);
        let mut i: usize = 0;
        while i < self.rust_targets.len()
            invariant
                i <= self.rust_targets@.len(),
                tv@ == triple@,
                forall|j: int| 0 <= j < i ==> self.rust_targets@[j]@ != triple@,
            decreases self.rust_targets@.len() - i,
        {
            let cv = crate::text::chars_of(self.rust_targets[i].as_str());
            if crate::text::seq_eq(cv.as_slice(), tv.as_slice()) {
                return true;
            }
            i = i + 1;
        }
        false
    }
}

#[derive(Debug, Clone)]
pub struct XcodeInstall {
    /// The active Xcode root (`xcode-select -p`).
    pub developer_dir: String,
    /// First line of `xcodebuild -version`, e.g. "Xcode 16.4".
    pub version: String,
    /// SDK display names reported by `xcodebuild -showsdks`.
    pub sdks: Vec<String>,
    pub simulators: Vec<Simulator>,
    pub codesign_identities: Vec<CodesignIdentity>,
}

#[derive(Debug, Clone)]
pub struct Simulator {
    pub udid: String,
    pub name: String,
    /// "iOS 17.5" / "xrOS 1.2".
    pub runtime: String,
    pub state: SimState,
    pub family: SimFamily,
}

#[derive(Debug, Clone, Copy, PartialEq, Eq, Structural)]
pub enum SimState {
    Booted,
    Shutdown,
    Unknown,
}

#[derive(Debug, Clone, Copy, PartialEq, Eq, Structural)]
pub enum SimFamily {
    Ios,
    VisionOs,
    Other,
}

#[derive(Debug, Clone)]
pub struct CodesignIdentity {
    /// SHA-1 fingerprint reported by `security find-identity`.
    pub id: String,
    /// "Apple Development: Foo Bar (XXXXXXXXXX)".
    pub common_name: String,
}

#[derive(Debug, Clone)]
pub struct AndroidInstall {
    pub sdk_root: String,
    pub ndk: Option<NdkInstall>,
    /// Installed `platforms;android-XX` levels.
    pub platforms: Vec<u32>,
    /// Installed `build-tools;X.Y.Z` entries.
    pub build_tools: Vec<String>,
    /// Resolved `adb` binary path.
    pub adb: Option<String>,
    /// Devices visible to `adb devices -l`.
    pub devices: Vec<AdbDevice>,
}

#[derive(Debug, Clone)]
pub struct NdkInstall {
    pub root: String,
    /// "27.0.12077973" or similar, from `source.properties`.
    pub version: String,
}

#[derive(Debug, Clone)]
pub struct AdbDevice {
    pub serial: String,
    /// Model string from `adb devices -l` (`model:` field).
    pub model: String,
    /// Whether the device line's state was `device`.
    pub authorised: bool,
}

} // verus!
