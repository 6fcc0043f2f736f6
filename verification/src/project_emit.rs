//! The iOS and Android project skeletons: which files a wrapper project
//! holds and what each contains, and the record of an emit pass. Existing
//! files are left alone so user edits survive a re-emit; writing the
//! missing ones is left to the caller.
use crate::text::{join_path, join_path_str, owned, push_str};
use vstd::prelude::*;

verus! {

/// One file of a project skeleton: where it goes and what it holds.
#[derive(Debug, Clone)]
pub struct EmitFile {
    pub path: String,
    pub contents: String,
}

/// A file of a skeleton as plain values.
pub open spec fn file_view(f: EmitFile) -> (Seq<char>, Seq<char>) {
    (f.path@, f.contents@)
}

/// Result of an emit pass: the paths created and the paths that were
/// preserved (already on disk).
#[derive(Debug)]
pub struct EmitReport {
    pub created: Vec<String>,
    pub preserved: Vec<String>,
}

impl Default for EmitReport {
    fn default() -> (r: Self)
        ensures
            r.created@.len() == 0,
            r.preserved@.len() == 0,
    {
        EmitReport { created: Vec::new(), preserved: Vec::new() }
    }
}

impl EmitReport {
    /// Records one file of the skeleton: preserved when it is already on
    /// disk, created otherwise. Returns whether the file is to be written.
    pub fn touch(&mut self, path: String, exists: bool) -> (write: bool)
        ensures
            write == !exists,
            exists ==> final(self).preserved@ == old(self).preserved@.push(path) && final(self).created@
                == old(self).created@,
            !exists ==> final(self).created@ == old(self).created@.push(path) && final(self).preserved@
                == old(self).preserved@,
    {
        if exists {
            self.preserved.push(path);
            false
        } else {
            self.created.push(path);
            true
        }
    }
}

/// The paths of a skeleton's files, in order.
pub open spec fn emit_paths(files: Seq<EmitFile>) -> Seq<Seq<char>> {
    files.map_values(|f: EmitFile| f.path@)
}

/// The paths a pass creates: those whose file was not on disk (`exists`
/// tells, position by position), in order.
pub open spec fn pass_created(paths: Seq<Seq<char>>, exists: Seq<bool>) -> Seq<Seq<char>>
    decreases paths.len(),
{
    if paths.len() == 0 {
        Seq::empty()
    } else {
        let rest = pass_created(paths.drop_last(), exists);
        if exists[paths.len() - 1] {
            rest
        } else {
            rest.push(paths.last())
        }
    }
}

/// The paths a pass preserves: those whose file was on disk, in order.
pub open spec fn pass_preserved(paths: Seq<Seq<char>>, exists: Seq<bool>) -> Seq<Seq<char>>
    decreases paths.len(),
{
    if paths.len() == 0 {
        Seq::empty()
    } else {
        let rest = pass_preserved(paths.drop_last(), exists);
        if exists[paths.len() - 1] {
            rest.push(paths.last())
        } else {
            rest
        }
    }
}

/// The record of an emit pass over a skeleton's files, given whether each
/// is already on disk: the missing ones are created (and are the ones to
/// write), the others preserved, each list in the skeleton's order.
pub fn plan_emit(files: &Vec<EmitFile>, exists: &Vec<bool>) -> (r: EmitReport)
    requires
        exists@.len() == files@.len(),
    ensures
        r.created@.map_values(|s: String| s@) == pass_created(emit_paths(files@), exists@),
        r.preserved@.map_values(|s: String| s@) == pass_preserved(emit_paths(files@), exists@),
{
    let mut report = EmitReport::default();
    let ghost paths = emit_paths(files@);
    let mut i: usize = 0;
    assert(report.created@.map_values(|s: String| s@) =~= pass_created(paths.take(0), exists@));
    assert(report.preserved@.map_values(|s: String| s@) =~= pass_preserved(paths.take(0), exists@));
    while i < files.len()
        invariant
            i <= files@.len(),
            exists@.len() == files@.len(),
            paths == emit_paths(files@),
            report.created@.map_values(|s: String| s@) == pass_created(paths.take(i as int), exists@),
            report.preserved@.map_values(|s: String| s@) == pass_preserved(paths.take(i as int), exists@),
        decreases files@.len() - i,
    {
        assert(paths.take(i + 1).drop_last() =~= paths.take(i as int));
        assert(paths.take(i + 1).last() == files@[i as int].path@);
        let ghost c0 = report.created@;
        let ghost p0 = report.preserved@;
        let path = owned(files[i].path.as_str());
        let _write = report.touch(path, exists[i]);
        assert(report.created@.map_values(|s: String| s@) =~= pass_created(paths.take(i + 1), exists@));
        assert(report.preserved@.map_values(|s: String| s@) =~= pass_preserved(paths.take(i + 1), exists@));
        i = i + 1;
    }
    assert(paths.take(files@.len() as int) =~= paths);
    report
}

/// A repeated emit pass changes nothing: once every file of the skeleton is
/// on disk (as after a first pass), a pass creates no file and preserves
/// every path, in the skeleton's order.
pub proof fn lemma_repeat_pass_creates_nothing(paths: Seq<Seq<char>>, exists: Seq<bool>)
    requires
        exists.len() == paths.len(),
        forall|i: int| 0 <= i < paths.len() ==> #[trigger] exists[i],
    ensures
        pass_created(paths, exists).len() == 0,
        pass_preserved(paths, exists) == paths,
{
    lemma_repeat_pass_prefix(paths, exists);
}

/// A pass over a prefix of the paths, with every flag of the prefix set,
/// creates nothing and preserves the prefix.
proof fn lemma_repeat_pass_prefix(q: Seq<Seq<char>>, exists: Seq<bool>)
    requires
        q.len() <= exists.len(),
        forall|i: int| 0 <= i < q.len() ==> #[trigger] exists[i],
    ensures
        pass_created(q, exists).len() == 0,
        pass_preserved(q, exists) == q,
    decreases q.len(),
{
    if q.len() > 0 {
        lemma_repeat_pass_prefix(q.drop_last(), exists);
        assert(q.drop_last().push(q.last()) =~= q);
    }
}

/// The text of `Info.plist`.
pub open spec fn info_plist(name: Seq<char>, bundle: Seq<char>) -> Seq<char> {
    "<?xml version=\"1.0\" encoding=\"UTF-8\"?>\n<!DOCTYPE plist PUBLIC \"-//Apple//DTD PLIST 1.0//EN\" \"http://www.apple.com/DTDs/PropertyList-1.0.dtd\">\n<plist version=\"1.0\"><dict>\n  <key>CFBundleName</key><string>"@
        + name
        + "</string>\n  <key>CFBundleIdentifier</key><string>"@
        + bundle
        + "</string>\n  <key>CFBundleVersion</key><string>1</string>\n  <key>CFBundleShortVersionString</key><string>1.0.0</string>\n  <key>CFBundleExecutable</key><string>"@
        + name
        + "</string>\n  <key>UIDeviceFamily</key><array><integer>1</integer><integer>2</integer></array>\n  <key>UISupportedInterfaceOrientations</key><array>\n    <string>UIInterfaceOrientationPortrait</string>\n    <string>UIInterfaceOrientationLandscapeLeft</string>\n    <string>UIInterfaceOrientationLandscapeRight</string>\n  </array>\n</dict></plist>\n"@
}

fn info_plist_text(app_name: &str, bundle_id: &str) -> (s: String)
    ensures
        s@ == info_plist(app_name@, bundle_id@),
{
    let mut s = owned("<?xml version=\"1.0\" encoding=\"UTF-8\"?>\n<!DOCTYPE plist PUBLIC \"-//Apple//DTD PLIST 1.0//EN\" \"http://www.apple.com/DTDs/PropertyList-1.0.dtd\">\n<plist version=\"1.0\"><dict>\n  <key>CFBundleName</key><string>");
    push_str(&mut s, app_name);
    push_str(&mut s, "</string>\n  <key>CFBundleIdentifier</key><string>");
    push_str(&mut s, bundle_id);
    push_str(&mut s, "</string>\n  <key>CFBundleVersion</key><string>1</string>\n  <key>CFBundleShortVersionString</key><string>1.0.0</string>\n  <key>CFBundleExecutable</key><string>");
    push_str(&mut s, app_name);
    push_str(&mut s, "</string>\n  <key>UIDeviceFamily</key><array><integer>1</integer><integer>2</integer></array>\n  <key>UISupportedInterfaceOrientations</key><array>\n    <string>UIInterfaceOrientationPortrait</string>\n    <string>UIInterfaceOrientationLandscapeLeft</string>\n    <string>UIInterfaceOrientationLandscapeRight</string>\n  </array>\n</dict></plist>\n");
    s
}

/// The text of `App.swift`.
pub open spec fn swift_shim(name: Seq<char>) -> Seq<char> {
    "import UIKit\n@main\nclass AppDelegate: UIResponder, UIApplicationDelegate {\n    var window: UIWindow?\n    func application(_ a: UIApplication,\n        didFinishLaunchingWithOptions opts:\n          [UIApplication.LaunchOptionsKey: Any]?) -> Bool {\n        // Hand off to the Rust-side Bevy `App::run()`.\n        "@
        + name
        + "_main()\n        return true\n    }\n}\n@_silgen_name(\""@
        + name
        + "_main\") func "@
        + name
        + "_main()\n"@
}

fn swift_shim_text(app_name: &str) -> (s: String)
    ensures
        s@ == swift_shim(app_name@),
{
    let mut s = owned("import UIKit\n@main\nclass AppDelegate: UIResponder, UIApplicationDelegate {\n    var window: UIWindow?\n    func application(_ a: UIApplication,\n        didFinishLaunchingWithOptions opts:\n          [UIApplication.LaunchOptionsKey: Any]?) -> Bool {\n        // Hand off to the Rust-side Bevy `App::run()`.\n        ");
    push_str(&mut s, app_name);
    push_str(&mut s, "_main()\n        return true\n    }\n}\n@_silgen_name(\"");
    push_str(&mut s, app_name);
    push_str(&mut s, "_main\") func ");
    push_str(&mut s, app_name);
    push_str(&mut s, "_main()\n");
    s
}

/// The text of `build_rust.sh`.
pub open spec fn build_phase(name: Seq<char>) -> Seq<char> {
    "#!/usr/bin/env bash\nset -euo pipefail\ncd \"$SRCROOT/..\"\ncargo build --target aarch64-apple-ios --release\ncp target/aarch64-apple-ios/release/lib"@
        + name
        + ".a \"$BUILT_PRODUCTS_DIR/lib"@
        + name
        + ".a\"\n"@
}

fn build_phase_text(app_name: &str) -> (s: String)
    ensures
        s@ == build_phase(app_name@),
{
    let mut s = owned("#!/usr/bin/env bash\nset -euo pipefail\ncd \"$SRCROOT/..\"\ncargo build --target aarch64-apple-ios --release\ncp target/aarch64-apple-ios/release/lib");
    push_str(&mut s, app_name);
    push_str(&mut s, ".a \"$BUILT_PRODUCTS_DIR/lib");
    push_str(&mut s, app_name);
    push_str(&mut s, ".a\"\n");
    s
}

/// The text of `README.md`.
pub open spec fn ios_readme(bundle: Seq<char>, team: Seq<char>) -> Seq<char> {
    "# Generated iOS wrapper\n\nBerryCode v0.7.3 emits the Swift shim, `Info.plist`, and the\nCargo build script \u{2014} but stops short of generating the\n`.xcodeproj` itself. Use [xcodegen](https://github.com/yonaskolb/XcodeGen)\non the bundled `project.yml` to assemble the project, then\n`xcodebuild archive`. Real `.xcodeproj` emit lands in v0.7.4.\n\nBundle ID: `"@
        + bundle
        + "`\nTeam ID: `"@
        + team
        + "`\n"@
}

fn ios_readme_text(bundle_id: &str, team_id: &str) -> (s: String)
    ensures
        s@ == ios_readme(bundle_id@, team_id@),
{
    let mut s = owned("# Generated iOS wrapper\n\nBerryCode v0.7.3 emits the Swift shim, `Info.plist`, and the\nCargo build script \u{2014} but stops short of generating the\n`.xcodeproj` itself. Use [xcodegen](https://github.com/yonaskolb/XcodeGen)\non the bundled `project.yml` to assemble the project, then\n`xcodebuild archive`. Real `.xcodeproj` emit lands in v0.7.4.\n\nBundle ID: `");
    push_str(&mut s, bundle_id);
    push_str(&mut s, "`\nTeam ID: `");
    push_str(&mut s, team_id);
    push_str(&mut s, "`\n");
    s
}

/// The text of `project.yml`.
pub open spec fn project_yml(name: Seq<char>, bundle: Seq<char>, team: Seq<char>) -> Seq<char> {
    "name: "@
        + name
        + "\noptions:\n  bundleIdPrefix: "@
        + bundle
        + "\nsettings:\n  DEVELOPMENT_TEAM: "@
        + team
        + "\ntargets:\n  "@
        + name
        + ":\n    type: application\n    platform: iOS\n    deploymentTarget: \"15.0\"\n    sources:\n      - Sources\n    info:\n      path: Info.plist\n    settings:\n      base:\n        OTHER_LDFLAGS: -l"@
        + name
        + "\n        LIBRARY_SEARCH_PATHS: $(BUILT_PRODUCTS_DIR)\n"@
}

fn project_yml_text(app_name: &str, bundle_id: &str, team_id: &str) -> (s: String)
    ensures
        s@ == project_yml(app_name@, bundle_id@, team_id@),
{
    let mut s = owned("name: ");
    push_str(&mut s, app_name);
    push_str(&mut s, "\noptions:\n  bundleIdPrefix: ");
    push_str(&mut s, bundle_id);
    push_str(&mut s, "\nsettings:\n  DEVELOPMENT_TEAM: ");
    push_str(&mut s, team_id);
    push_str(&mut s, "\ntargets:\n  ");
    push_str(&mut s, app_name);
    push_str(&mut s, ":\n    type: application\n    platform: iOS\n    deploymentTarget: \"15.0\"\n    sources:\n      - Sources\n    info:\n      path: Info.plist\n    settings:\n      base:\n        OTHER_LDFLAGS: -l");
    push_str(&mut s, app_name);
    push_str(&mut s, "\n        LIBRARY_SEARCH_PATHS: $(BUILT_PRODUCTS_DIR)\n");
    s
}

/// The text of `app/build.gradle`.
pub open spec fn app_gradle(pkg: Seq<char>, name: Seq<char>) -> Seq<char> {
    "plugins { id 'com.android.application' }\nandroid {\n    namespace '"@
        + pkg
        + "'\n    compileSdk 34\n    defaultConfig {\n        applicationId '"@
        + pkg
        + "'\n        minSdk 24\n        targetSdk 34\n        versionCode 1\n        versionName '1.0.0'\n        ndk { abiFilters 'arm64-v8a' }\n    }\n    buildTypes {\n        release {\n            minifyEnabled false\n            // signingConfig signingConfigs.release  // wired in v0.7.4\n        }\n    }\n}\n// The Rust library is built by `cargo apk` / `xbuild` and dropped\n// into `app/src/main/jniLibs/arm64-v8a/lib"@
        + name
        + ".so`. v0.7.4 will\n// wire that as a Gradle task.\n"@
}

fn app_gradle_text(package_name: &str, app_name: &str) -> (s: String)
    ensures
        s@ == app_gradle(package_name@, app_name@),
{
    let mut s = owned("plugins { id 'com.android.application' }\nandroid {\n    namespace '");
    push_str(&mut s, package_name);
    push_str(&mut s, "'\n    compileSdk 34\n    defaultConfig {\n        applicationId '");
    push_str(&mut s, package_name);
    push_str(&mut s, "'\n        minSdk 24\n        targetSdk 34\n        versionCode 1\n        versionName '1.0.0'\n        ndk { abiFilters 'arm64-v8a' }\n    }\n    buildTypes {\n        release {\n            minifyEnabled false\n            // signingConfig signingConfigs.release  // wired in v0.7.4\n        }\n    }\n}\n// The Rust library is built by `cargo apk` / `xbuild` and dropped\n// into `app/src/main/jniLibs/arm64-v8a/lib");
    push_str(&mut s, app_name);
    push_str(&mut s, ".so`. v0.7.4 will\n// wire that as a Gradle task.\n");
    s
}

/// The text of `AndroidManifest.xml`.
pub open spec fn android_manifest(name: Seq<char>) -> Seq<char> {
    "<?xml version=\"1.0\" encoding=\"utf-8\"?>\n<manifest xmlns:android=\"http://schemas.android.com/apk/res/android\">\n  <application android:label=\""@
        + name
        + "\" android:theme=\"@android:style/Theme.NoTitleBar.Fullscreen\">\n    <activity android:name=\"android.app.NativeActivity\"\n              android:exported=\"true\"\n              android:configChanges=\"orientation|keyboardHidden|screenSize\">\n      <meta-data android:name=\"android.app.lib_name\" android:value=\""@
        + name
        + "\"/>\n      <intent-filter>\n        <action android:name=\"android.intent.action.MAIN\"/>\n        <category android:name=\"android.intent.category.LAUNCHER\"/>\n      </intent-filter>\n    </activity>\n  </application>\n</manifest>\n"@
}

fn android_manifest_text(app_name: &str) -> (s: String)
    ensures
        s@ == android_manifest(app_name@),
{
    let mut s = owned("<?xml version=\"1.0\" encoding=\"utf-8\"?>\n<manifest xmlns:android=\"http://schemas.android.com/apk/res/android\">\n  <application android:label=\"");
    push_str(&mut s, app_name);
    push_str(&mut s, "\" android:theme=\"@android:style/Theme.NoTitleBar.Fullscreen\">\n    <activity android:name=\"android.app.NativeActivity\"\n              android:exported=\"true\"\n              android:configChanges=\"orientation|keyboardHidden|screenSize\">\n      <meta-data android:name=\"android.app.lib_name\" android:value=\"");
    push_str(&mut s, app_name);
    push_str(&mut s, "\"/>\n      <intent-filter>\n        <action android:name=\"android.intent.action.MAIN\"/>\n        <category android:name=\"android.intent.category.LAUNCHER\"/>\n      </intent-filter>\n    </activity>\n  </application>\n</manifest>\n");
    s
}

/// The text of `settings.gradle`.
pub open spec fn settings_gradle() -> Seq<char> {
    "include ':app'\nrootProject.name = 'BerryCodeApp'\n"@
}

/// The text of the top-level `build.gradle`.
pub open spec fn top_build_gradle() -> Seq<char> {
    "buildscript {\n    repositories { google(); mavenCentral() }\n    dependencies { classpath 'com.android.tools.build:gradle:8.2.0' }\n}\nallprojects { repositories { google(); mavenCentral() } }\n"@
}

/// The files of the Xcode wrapper under `<root>/ios/`, in the order they
/// are emitted: `Info.plist`, the Swift shim, the Cargo build script, the
/// README and the xcodegen `project.yml`.
pub open spec fn xcode_files(root: Seq<char>, bundle: Seq<char>, team: Seq<char>, name: Seq<char>) -> Seq<
    (Seq<char>, Seq<char>),
> {
    let ios = join_path(root, "ios"@);
    seq![
        (join_path(ios, "Info.plist"@), info_plist(name, bundle)),
        (join_path(join_path(ios, "Sources"@), "App.swift"@), swift_shim(name)),
        (join_path(join_path(ios, "scripts"@), "build_rust.sh"@), build_phase(name)),
        (join_path(ios, "README.md"@), ios_readme(bundle, team)),
        (join_path(ios, "project.yml"@), project_yml(name, bundle, team)),
    ]
}

/// The files of the Gradle wrapper under `<root>/android/`, in the order
/// they are emitted.
pub open spec fn gradle_files(root: Seq<char>, pkg: Seq<char>, name: Seq<char>) -> Seq<
    (Seq<char>, Seq<char>),
> {
    let android = join_path(root, "android"@);
    seq![
        (join_path(android, "settings.gradle"@), settings_gradle()),
        (join_path(android, "build.gradle"@), top_build_gradle()),
        (join_path(android, "app/build.gradle"@), app_gradle(pkg, name)),
        (join_path(android, "app/src/main/AndroidManifest.xml"@), android_manifest(name)),
    ]
}

fn file_at(dir: &str, name: &str, contents: String) -> (f: EmitFile)
    ensures
        file_view(f) == (join_path(dir@, name@), contents@),
{
    EmitFile { path: join_path_str(dir, name), contents }
}

/// The minimal Xcode project tree at `<root>/ios/` that wraps the
/// `aarch64-apple-ios` build of the crate: its files, in order.
pub fn emit_xcode_project(root: &str, bundle_id: &str, team_id: &str, app_name: &str) -> (r: Vec<EmitFile>)
    ensures
        r@.map_values(|f: EmitFile| file_view(f)) == xcode_files(root@, bundle_id@, team_id@, app_name@),
{
    let ios = join_path_str(root, "ios");
    let sources = join_path_str(ios.as_str(), "Sources");
    let scripts = join_path_str(ios.as_str(), "scripts");
    let mut r: Vec<EmitFile> = Vec::new();
    r.push(file_at(ios.as_str(), "Info.plist", info_plist_text(app_name, bundle_id)));
    r.push(file_at(sources.as_str(), "App.swift", swift_shim_text(app_name)));
    r.push(file_at(scripts.as_str(), "build_rust.sh", build_phase_text(app_name)));
    r.push(file_at(ios.as_str(), "README.md", ios_readme_text(bundle_id, team_id)));
    r.push(file_at(ios.as_str(), "project.yml", project_yml_text(app_name, bundle_id, team_id)));
    assert(r@.map_values(|f: EmitFile| file_view(f)) =~= xcode_files(
        root@,
        bundle_id@,
        team_id@,
        app_name@,
    ));
    r
}

/// The minimal Gradle project tree at `<root>/android/`: its files, in
/// order.
pub fn emit_gradle_project(root: &str, package_name: &str, app_name: &str) -> (r: Vec<EmitFile>)
    ensures
        r@.map_values(|f: EmitFile| file_view(f)) == gradle_files(root@, package_name@, app_name@),
{
    let android = join_path_str(root, "android");
    let mut r: Vec<EmitFile> = Vec::new();
    r.push(file_at(android.as_str(), "settings.gradle", owned("include ':app'\nrootProject.name = 'BerryCodeApp'\n")));
    r.push(file_at(android.as_str(), "build.gradle", owned("buildscript {\n    repositories { google(); mavenCentral() }\n    dependencies { classpath 'com.android.tools.build:gradle:8.2.0' }\n}\nallprojects { repositories { google(); mavenCentral() } }\n")));
    r.push(file_at(android.as_str(), "app/build.gradle", app_gradle_text(package_name, app_name)));
    r.push(
        file_at(
            android.as_str(),
            "app/src/main/AndroidManifest.xml",
            android_manifest_text(app_name),
        ),
    );
    assert(r@.map_values(|f: EmitFile| file_view(f)) =~= gradle_files(root@, package_name@, app_name@));
    r
}

} // verus!
