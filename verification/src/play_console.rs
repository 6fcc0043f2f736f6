//! Store upload helpers: they check the inputs and hand back the manual
//! upload commands (Google Play `edits` API via `curl`, App Store via
//! `xcrun altool`). Whether the files exist is asked by the caller.
use crate::text::{owned, push_str};
use vstd::prelude::*;

verus! {

#[derive(Debug, Clone, Copy, PartialEq, Eq, Structural)]
pub enum UploadTrack {
    Internal,
    Alpha,
    Beta,
    Production,
}

pub open spec fn track_label_spec(t: UploadTrack) -> Seq<char> {
    match t {
        UploadTrack::Internal => "internal"@,
        UploadTrack::Alpha => "alpha"@,
        UploadTrack::Beta => "beta"@,
        UploadTrack::Production => "production"@,
    }
}

impl UploadTrack {
    pub fn label(&self) -> (r: &'static str)
        ensures
            r@ == track_label_spec(*self),
    {
        match self {
            UploadTrack::Internal => "internal",
            UploadTrack::Alpha => "alpha",
            UploadTrack::Beta => "beta",
            UploadTrack::Production => "production",
        }
    }
}

/// The manual Play Console upload script for an AAB.
pub open spec fn aab_command(aab: Seq<char>, sa: Seq<char>, pkg: Seq<char>, track: UploadTrack) -> Seq<char> {
    "# v0.7.2 scaffold \u{2014} full upload lands in v0.7.3.\n# Until then, run this manually (requires `gcloud` + `curl`):\ngcloud auth activate-service-account --key-file="@
    + sa
    + "\nACCESS=$(gcloud auth print-access-token)\nEDIT=$(curl -s -H \"Authorization: Bearer $ACCESS\" -X POST \\\n    https://androidpublisher.googleapis.com/androidpublisher/v3/applications/"@
    + pkg
    + "/edits | jq -r .id)\ncurl -s -H \"Authorization: Bearer $ACCESS\" -H \"Content-Type: application/octet-stream\" \\\n    -X POST --data-binary @"@
    + aab
    + " \\\n    https://androidpublisher.googleapis.com/upload/androidpublisher/v3/applications/"@
    + pkg
    + "/edits/$EDIT/bundles\ncurl -s -H \"Authorization: Bearer $ACCESS\" -H \"Content-Type: application/json\" \\\n    -X PUT -d '{\"track\":\""@
    + track_label_spec(track)
    + "\",\"releases\":[{\"status\":\"completed\"}]}' \\\n    https://androidpublisher.googleapis.com/androidpublisher/v3/applications/"@
    + pkg
    + "/edits/$EDIT/tracks/"@
    + track_label_spec(track)
    + "\ncurl -s -H \"Authorization: Bearer $ACCESS\" -X POST \\\n    https://androidpublisher.googleapis.com/androidpublisher/v3/applications/"@
    + pkg
    + "/edits/$EDIT:commit\n"@
}

pub open spec fn aab_missing_message(aab: Seq<char>) -> Seq<char> {
    "AAB not found at "@
    + aab
    + ". Build it via `Build \u{2192} Android \u{2192} Release AAB` first."@
}

pub open spec fn service_account_missing_message(sa: Seq<char>) -> Seq<char> {
    "Play Console service-account JSON not found at "@
    + sa
    + ". Create one in Play Console \u{2192} API access \u{2192} Service accounts."@
}

pub open spec fn empty_package_message() -> Seq<char> {
    "Android package name is empty \u{2014} set it in Build Settings."@
}

/// Checks the inputs of an AAB upload and returns the manual upload command:
/// the AAB must exist and be readable (`aab_exists`), then so must the
/// service-account JSON (`service_account_exists`), then the
/// package name must not be empty; the first check that fails gives its
/// error.
pub fn upload_aab(
    aab_path: &str,
    aab_exists: bool,
    service_account_json: &str,
    service_account_exists: bool,
    package_name: &str,
    track: UploadTrack,
) -> (r: Result<String, String>)
    ensures
        !aab_exists ==> (r matches Err(e) && e@ == aab_missing_message(aab_path@)),
        aab_exists && !service_account_exists ==> (r matches Err(e) && e@
            == service_account_missing_message(service_account_json@)),
        aab_exists && service_account_exists && package_name@.len() == 0 ==> (r matches Err(e)
            && e@ == empty_package_message()),
        aab_exists && service_account_exists && package_name@.len() > 0 ==> (r matches Ok(c) && c@
            == aab_command(aab_path@, service_account_json@, package_name@, track)),
{
    if !aab_exists {
        let mut e = owned("AAB not found at ");
        push_str(&mut e, aab_path);
        push_str(&mut e, ". Build it via `Build \u{2192} Android \u{2192} Release AAB` first.");
        return Err(e);
    }
    if !service_account_exists {
        let mut e = owned("Play Console service-account JSON not found at ");
        push_str(&mut e, service_account_json);
        push_str(&mut e, ". Create one in Play Console \u{2192} API access \u{2192} Service accounts.");
        return Err(e);
    }
    if package_name.is_empty() {
        return Err(owned("Android package name is empty \u{2014} set it in Build Settings."));
    }
    let mut s = owned("# v0.7.2 scaffold \u{2014} full upload lands in v0.7.3.\n# Until then, run this manually (requires `gcloud` + `curl`):\ngcloud auth activate-service-account --key-file=");
    push_str(&mut s, service_account_json);
    push_str(&mut s, "\nACCESS=$(gcloud auth print-access-token)\nEDIT=$(curl -s -H \"Authorization: Bearer $ACCESS\" -X POST \\\n    https://androidpublisher.googleapis.com/androidpublisher/v3/applications/");
    push_str(&mut s, package_name);
    push_str(&mut s, "/edits | jq -r .id)\ncurl -s -H \"Authorization: Bearer $ACCESS\" -H \"Content-Type: application/octet-stream\" \\\n    -X POST --data-binary @");
    push_str(&mut s, aab_path);
    push_str(&mut s, " \\\n    https://androidpublisher.googleapis.com/upload/androidpublisher/v3/applications/");
    push_str(&mut s, package_name);
    push_str(&mut s, "/edits/$EDIT/bundles\ncurl -s -H \"Authorization: Bearer $ACCESS\" -H \"Content-Type: application/json\" \\\n    -X PUT -d '{\"track\":\"");
    push_str(&mut s, track.label());
    push_str(&mut s, "\",\"releases\":[{\"status\":\"completed\"}]}' \\\n    https://androidpublisher.googleapis.com/androidpublisher/v3/applications/");
    push_str(&mut s, package_name);
    push_str(&mut s, "/edits/$EDIT/tracks/");
    push_str(&mut s, track.label());
    push_str(&mut s, "\ncurl -s -H \"Authorization: Bearer $ACCESS\" -X POST \\\n    https://androidpublisher.googleapis.com/androidpublisher/v3/applications/");
    push_str(&mut s, package_name);
    push_str(&mut s, "/edits/$EDIT:commit\n");
    Ok(s)
}

/// The manual App Store upload command for an IPA.
pub open spec fn ipa_command(ipa: Seq<char>, user: Seq<char>, pw: Seq<char>) -> Seq<char> {
    "# v0.7.2 scaffold \u{2014} full upload lands in v0.7.3.\nxcrun altool --upload-app --type ios --file "@
    + ipa
    + " \\\n    --username "@
    + user
    + " --password "@
    + pw
    + "\n"@
}

pub open spec fn ipa_missing_message(ipa: Seq<char>) -> Seq<char> {
    "IPA not found at "@
    + ipa
    + ". Build it via `Build \u{2192} iOS \u{2192} Release IPA` first."@
}

pub open spec fn empty_apple_id_message() -> Seq<char> {
    "Apple ID is empty \u{2014} set it in Build Settings."@
}

pub open spec fn empty_password_message() -> Seq<char> {
    "App-specific password is empty \u{2014} generate one at appleid.apple.com \u{2192} Sign-In Security."@
}

/// Checks the inputs of an IPA upload and returns the manual upload command:
/// the IPA must exist and be readable (`ipa_exists`), then the Apple ID and then the app-specific password
/// must not be empty; the first check that fails gives its error.
pub fn upload_ipa(
    ipa_path: &str,
    ipa_exists: bool,
    apple_id: &str,
    app_specific_password: &str,
) -> (r: Result<String, String>)
    ensures
        !ipa_exists ==> (r matches Err(e) && e@ == ipa_missing_message(ipa_path@)),
        ipa_exists && apple_id@.len() == 0 ==> (r matches Err(e) && e@ == empty_apple_id_message()),
        ipa_exists && apple_id@.len() > 0 && app_specific_password@.len() == 0 ==> (r matches Err(e)
            && e@ == empty_password_message()),
        ipa_exists && apple_id@.len() > 0 && app_specific_password@.len() > 0 ==> (r matches Ok(c)
            && c@ == ipa_command(ipa_path@, apple_id@, app_specific_password@)),
{
    if !ipa_exists {
        let mut e = owned("IPA not found at ");
        push_str(&mut e, ipa_path);
        push_str(&mut e, ". Build it via `Build \u{2192} iOS \u{2192} Release IPA` first.");
        return Err(e);
    }
    if apple_id.is_empty() {
        return Err(owned("Apple ID is empty \u{2014} set it in Build Settings."));
    }
    if app_specific_password.is_empty() {
        return Err(owned("App-specific password is empty \u{2014} generate one at appleid.apple.com \u{2192} Sign-In Security."));
    }
    let mut s = owned("# v0.7.2 scaffold \u{2014} full upload lands in v0.7.3.\nxcrun altool --upload-app --type ios --file ");
    push_str(&mut s, ipa_path);
    push_str(&mut s, " \\\n    --username ");
    push_str(&mut s, apple_id);
    push_str(&mut s, " --password ");
    push_str(&mut s, app_specific_password);
    push_str(&mut s, "\n");
    Ok(s)
}

} // verus!
