//! Mobile deploy / launch dispatcher: what to run for a target and an
//! artifact. Spawning the process and pumping its output is left to the
//! caller.
use crate::text::{chars_of, contains, contains_str, ends_with, owned, push_str, starts_with};
use vstd::prelude::*;
use vstd::utf8::{decode_utf8, encode_utf8, is_char_boundary};

verus! {

/// What is being launched against.
#[derive(Debug, Clone)]
pub enum MobileTarget {
    IosSim { udid: String, bundle_id: String },
    IosDevice { udid: String, bundle_id: String },
    Android {
        serial: String,
        package_name: String,
        /// `MainActivity` or `com.example.android.MainActivity`.
        activity: String,
    },
}

/// `s` cut to its first 8 bytes followed by `…` when it is longer than 8
/// bytes; `s` itself otherwise.
pub open spec fn short_spec(s: Seq<char>) -> Seq<char> {
    if encode_utf8(s).len() > 8 {
        decode_utf8(encode_utf8(s).subrange(0, 8)) + "\u{2026}"@
    } else {
        s
    }
}

/// Whether cutting `s` after its first 8 bytes is allowed (it is shorter, or
/// byte 8 starts a character).
pub open spec fn short_ok(s: Seq<char>) -> bool {
    encode_utf8(s).len() > 8 ==> is_char_boundary(encode_utf8(s), 8)
}

pub fn short(s: &str) -> (r: String)
    requires
        short_ok(s@),
    ensures
        r@ == short_spec(s@),
{
    let bytes = s.as_bytes();
    let n = bytes.len();
    assert(n == encode_utf8(s@).len());
    if n > 8 {
        let (head, _) = s.split_at(8);
        proof {
            vstd::utf8::encode_utf8_decode_utf8(head@);
            assert(encode_utf8(head@) =~= encode_utf8(s@).subrange(0, 8));
            assert(head@ == decode_utf8(encode_utf8(s@).subrange(0, 8)));
        }
        let mut out = owned(head);
        push_str(&mut out, "\u{2026}");
        out
    } else {
        owned(s)
    }
}

pub open spec fn target_label_spec(t: MobileTarget) -> Seq<char> {
    match t {
        MobileTarget::IosSim { .. } => "iOS Simulator"@,
        MobileTarget::IosDevice { .. } => "iOS Device"@,
        MobileTarget::Android { .. } => "Android"@,
    }
}

/// The id that `label` shortens (the udid of an iOS target).
pub open spec fn label_ok(t: MobileTarget) -> bool {
    match t {
        MobileTarget::IosSim { udid, .. } => short_ok(udid@),
        MobileTarget::IosDevice { udid, .. } => short_ok(udid@),
        MobileTarget::Android { .. } => true,
    }
}

pub open spec fn label_spec(t: MobileTarget) -> Seq<char> {
    match t {
        MobileTarget::IosSim { udid, .. } => "iOS Sim "@ + short_spec(udid@),
        MobileTarget::IosDevice { udid, .. } => "iOS Device "@ + short_spec(udid@),
        MobileTarget::Android { serial, .. } => "Android "@ + serial@,
    }
}

impl MobileTarget {
    /// "iOS Sim 12345678…", "iOS Device …", "Android <serial>".
    pub fn label(&self) -> (r: String)
        requires
            label_ok(*self),
        ensures
            r@ == label_spec(*self),
    {
        match self {
            Self::IosSim { udid, .. } => {
                let mut out = owned("iOS Sim ");
                let s = short(udid.as_str());
                push_str(&mut out, s.as_str());
                out
            },
            Self::IosDevice { udid, .. } => {
                let mut out = owned("iOS Device ");
                let s = short(udid.as_str());
                push_str(&mut out, s.as_str());
                out
            },
            Self::Android { serial, .. } => {
                let mut out = owned("Android ");
                push_str(&mut out, serial.as_str());
                out
            },
        }
    }

    pub fn target_label(&self) -> (r: &'static str)
        ensures
            r@ == target_label_spec(*self),
    {
        match self {
            Self::IosSim { .. } => "iOS Simulator",
            Self::IosDevice { .. } => "iOS Device",
            Self::Android { .. } => "Android",
        }
    }
}

/// The `am start -n` component: the activity when it contains `.`,
/// otherwise `<package>/.<activity>`; then prefixed by `<package>/` when it
/// has no `/`.
pub open spec fn android_component(package_name: Seq<char>, activity: Seq<char>) -> Seq<char> {
    let c = if contains(activity, "."@) {
        activity
    } else {
        package_name + "/."@ + activity
    };
    if contains(c, "/"@) {
        c
    } else {
        package_name + "/"@ + c
    }
}

/// The shell script that boots, installs and launches on the target.
pub open spec fn run_script(target: MobileTarget, artifact: Seq<char>) -> Seq<char> {
    match target {
        MobileTarget::IosSim { udid, bundle_id } => "set -e; xcrun simctl boot "@ + udid@
            + " >/dev/null 2>&1 || true; xcrun simctl install "@ + udid@ + " '"@ + artifact
            + "'; exec xcrun simctl launch --console-pty "@ + udid@ + " "@ + bundle_id@,
        MobileTarget::IosDevice { udid, bundle_id } =>
            "set -e; xcrun devicectl device install app --device "@ + udid@ + " '"@ + artifact
            + "'; exec xcrun devicectl device process launch --device "@ + udid@ + " --console "@
            + bundle_id@,
        MobileTarget::Android { serial, package_name, activity } => "set -e; adb -s "@ + serial@
            + " install -r '"@ + artifact + "'; adb -s "@ + serial@ + " shell am start -W -n "@
            + android_component(package_name@, activity@) + "; sleep 1; PID=$(adb -s "@ + serial@
            + " shell pidof -s "@ + package_name@
            + " | tr -d '\\r'); if [ -z \"$PID\" ]; then exec adb -s "@ + serial@
            + " logcat -v threadtime; else exec adb -s "@ + serial@
            + " logcat -v threadtime --pid=$PID; fi"@,
    }
}

fn component_of(package_name: &str, activity: &str) -> (r: String)
    ensures
        r@ == android_component(package_name@, activity@),
{
    let av = chars_of(activity);
    let c = if contains_str(av.as_slice(), ".") {
        owned(activity)
    } else {
        let mut c = owned(package_name);
        push_str(&mut c, "/.");
        push_str(&mut c, activity);
        c
    };
    let cv = chars_of(c.as_str());
    if contains_str(cv.as_slice(), "/") {
        c
    } else {
        let mut out = owned(package_name);
        push_str(&mut out, "/");
        push_str(&mut out, c.as_str());
        out
    }
}

/// The program and arguments to run for a target and an artifact path:
/// always `sh -c <run_script>`.
pub fn build_command(target: &MobileTarget, artifact: &str) -> (r: Result<(String, Vec<String>), String>)
    ensures
        r matches Ok((program, args)) && program@ == "sh"@ && args@.len() == 2 && args@[0]@
            == "-c"@ && args@[1]@ == run_script(*target, artifact@),
        r is Ok,
{
    let script = match target {
        MobileTarget::IosSim { udid, bundle_id } => {
            let mut s = owned("set -e; xcrun simctl boot ");
            push_str(&mut s, udid.as_str());
            push_str(&mut s, " >/dev/null 2>&1 || true; xcrun simctl install ");
            push_str(&mut s, udid.as_str());
            push_str(&mut s, " '");
            push_str(&mut s, artifact);
            push_str(&mut s, "'; exec xcrun simctl launch --console-pty ");
            push_str(&mut s, udid.as_str());
            push_str(&mut s, " ");
            push_str(&mut s, bundle_id.as_str());
            s
        },
        MobileTarget::IosDevice { udid, bundle_id } => {
            let mut s = owned("set -e; xcrun devicectl device install app --device ");
            push_str(&mut s, udid.as_str());
            push_str(&mut s, " '");
            push_str(&mut s, artifact);
            push_str(&mut s, "'; exec xcrun devicectl device process launch --device ");
            push_str(&mut s, udid.as_str());
            push_str(&mut s, " --console ");
            push_str(&mut s, bundle_id.as_str());
            s
        },
        MobileTarget::Android { serial, package_name, activity } => {
            let component = component_of(package_name.as_str(), activity.as_str());
            let mut s = owned("set -e; adb -s ");
            push_str(&mut s, serial.as_str());
            push_str(&mut s, " install -r '");
            push_str(&mut s, artifact);
            push_str(&mut s, "'; adb -s ");
            push_str(&mut s, serial.as_str());
            push_str(&mut s, " shell am start -W -n ");
            push_str(&mut s, component.as_str());
            push_str(&mut s, "; sleep 1; PID=$(adb -s ");
            push_str(&mut s, serial.as_str());
            push_str(&mut s, " shell pidof -s ");
            push_str(&mut s, package_name.as_str());
            push_str(&mut s, " | tr -d '\\r'); if [ -z \"$PID\" ]; then exec adb -s ");
            push_str(&mut s, serial.as_str());
            push_str(&mut s, " logcat -v threadtime; else exec adb -s ");
            push_str(&mut s, serial.as_str());
            push_str(&mut s, " logcat -v threadtime --pid=$PID; fi");
            s
        },
    };
    let mut args: Vec<String> = Vec::new();
    args.push(owned("-c"));
    args.push(script);
    Ok((owned("sh"), args))
}


/// `{:?}` of an optional exit code: `Some(<code>)` or `None`.
pub open spec fn exit_code_debug(code: Option<i32>) -> Seq<char> {
    match code {
        Some(c) => "Some("@ + (if c < 0 {
            "-"@ + crate::text::decimal((-c) as nat)
        } else {
            crate::text::decimal(c as nat)
        }) + ")"@,
        None => "None"@,
    }
}

/// Appends `{:?}` of an optional exit code.
pub fn push_exit_code(s: &mut String, code: Option<i32>)
    ensures
        final(s)@ == old(s)@ + exit_code_debug(code),
{
    match code {
        Some(c) => {
            push_str(s, "Some(");
            if c < 0 {
                push_str(s, "-");
                let m: i64 = -(c as i64);
                crate::text::push_u64(s, m as u64);
            } else {
                crate::text::push_u64(s, c as u64);
            }
            push_str(s, ")");
        },
        None => push_str(s, "None"),
    }
}

/// The log line that closes a run: `─── Exited with code <code> ───`.
pub fn exit_line(code: Option<i32>) -> (r: String)
    ensures
        r@ == "\u{2500}\u{2500}\u{2500} Exited with code "@ + exit_code_debug(code) + " \u{2500}\u{2500}\u{2500}"@,
{
    let mut s = owned("\u{2500}\u{2500}\u{2500} Exited with code ");
    push_exit_code(&mut s, code);
    push_str(&mut s, " \u{2500}\u{2500}\u{2500}");
    s
}

/// A line of the run's output as logged: lines from stderr are tagged.
pub fn log_payload(from_stderr: bool, line: &str) -> (r: String)
    ensures
        r@ == (if from_stderr {
            "[stderr] "@ + line@
        } else {
            line@
        }),
{
    if from_stderr {
        let mut s = owned("[stderr] ");
        push_str(&mut s, line);
        s
    } else {
        owned(line)
    }
}

/// Whether a target needs the Apple tools (an iOS simulator or device).
pub open spec fn needs_macos(t: MobileTarget) -> bool {
    t is IosSim || t is IosDevice
}

/// The checks before a run starts: the artifact must exist, then an iOS
/// target needs a macOS host.
pub fn run_preflight(target: &MobileTarget, artifact: &str, artifact_exists: bool, host_is_macos: bool) -> (r:
    Result<(), String>)
    ensures
        !artifact_exists ==> (r matches Err(e) && e@ == "artifact not found: "@ + artifact@),
        artifact_exists && needs_macos(*target) && !host_is_macos ==> (r matches Err(e) && e@
            == "iOS / visionOS targets require macOS"@),
        artifact_exists && !(needs_macos(*target) && !host_is_macos) ==> r is Ok,
{
    if !artifact_exists {
        let mut e = owned("artifact not found: ");
        push_str(&mut e, artifact);
        return Err(e);
    }
    let apple = match target {
        MobileTarget::IosSim { .. } => true,
        MobileTarget::IosDevice { .. } => true,
        MobileTarget::Android { .. } => false,
    };
    if apple && !host_is_macos {
        return Err(owned("iOS / visionOS targets require macOS"));
    }
    Ok(())
}

/// Every step of a device run addresses the chosen device: on an iOS
/// device both the install and the launch pass `--device <udid>`, the run
/// ending by launching the bundle with its console; on a simulator the
/// script first boots that simulator and ends by launching the bundle on
/// it; on Android it first installs through `adb -s <serial>`.
pub proof fn lemma_run_script_targets_the_device(target: MobileTarget, artifact: Seq<char>)
    ensures
        target matches MobileTarget::IosDevice { udid, bundle_id } ==> starts_with(
            run_script(target, artifact),
            "set -e; xcrun devicectl device install app --device "@ + udid@ + " '"@,
        ) && ends_with(
            run_script(target, artifact),
            "'; exec xcrun devicectl device process launch --device "@ + udid@ + " --console "@
                + bundle_id@,
        ),
        target matches MobileTarget::IosSim { udid, bundle_id } ==> starts_with(
            run_script(target, artifact),
            "set -e; xcrun simctl boot "@ + udid@,
        ) && ends_with(
            run_script(target, artifact),
            "'; exec xcrun simctl launch --console-pty "@ + udid@ + " "@ + bundle_id@,
        ),
        target matches MobileTarget::Android { serial, package_name, activity } ==> starts_with(
            run_script(target, artifact),
            "set -e; adb -s "@ + serial@ + " install -r '"@,
        ),
{
    let s = run_script(target, artifact);
    match target {
        MobileTarget::IosDevice { udid, bundle_id } => {
            let p = "set -e; xcrun devicectl device install app --device "@ + udid@ + " '"@;
            let q = "'; exec xcrun devicectl device process launch --device "@ + udid@
                + " --console "@ + bundle_id@;
            assert(s =~= p + artifact + q);
            assert(s.subrange(0, p.len() as int) =~= p);
            assert(s.subrange(s.len() - q.len(), s.len() as int) =~= q);
        },
        MobileTarget::IosSim { udid, bundle_id } => {
            let p = "set -e; xcrun simctl boot "@ + udid@;
            let m = " >/dev/null 2>&1 || true; xcrun simctl install "@ + udid@ + " '"@ + artifact;
            let q = "'; exec xcrun simctl launch --console-pty "@ + udid@ + " "@ + bundle_id@;
            assert(s =~= p + m + q);
            assert(s.subrange(0, p.len() as int) =~= p);
            assert(s.subrange(s.len() - q.len(), s.len() as int) =~= q);
        },
        MobileTarget::Android { serial, package_name, activity } => {
            let p = "set -e; adb -s "@ + serial@ + " install -r '"@;
            assert(s.subrange(0, p.len() as int) =~= p);
        },
    }
}

} // verus!
