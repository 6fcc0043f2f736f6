//! Scene view modes and the device display profiles the scene view can
//! preview.
use vstd::prelude::*;

verus! {

/// Which camera the scene editor's viewport renders from.
#[derive(Debug, Clone, Copy, PartialEq, Eq, Default, Structural)]
pub enum SceneViewMode {
    #[default]
    Scene,
    Game,
}

/// Mobile / tablet display profiles for previewing a scene on a device.
#[derive(Debug, Clone, Copy, PartialEq, Eq, Default, Structural)]
pub enum DisplayProfile {
    #[default]
    Default,
    IPhonePortrait,
    IPhoneLandscape,
    IPadPortrait,
    IPadLandscape,
    AndroidPhonePortrait,
    AndroidPhoneLandscape,
    AndroidTablet,
}

/// Pixel dimensions and safe-area insets (top / bottom, logical points) of a
/// display profile.
pub struct DisplayProfileSpec {
    pub label: &'static str,
    pub width: u32,
    pub height: u32,
    pub safe_top: u32,
    pub safe_bottom: u32,
}

/// (label, width, height, safe top, safe bottom) of a profile; none for the
/// free-aspect default.
pub open spec fn profile_spec(p: DisplayProfile) -> Option<(Seq<char>, u32, u32, u32, u32)> {
    match p {
        DisplayProfile::Default => None,
        DisplayProfile::IPhonePortrait => Some(("iPhone (Portrait)"@, 393u32, 852u32, 59u32, 34u32)),
        DisplayProfile::IPhoneLandscape => Some(("iPhone (Landscape)"@, 852u32, 393u32, 0u32, 21u32)),
        DisplayProfile::IPadPortrait => Some(("iPad (Portrait)"@, 834u32, 1194u32, 24u32, 20u32)),
        DisplayProfile::IPadLandscape => Some(("iPad (Landscape)"@, 1194u32, 834u32, 24u32, 20u32)),
        DisplayProfile::AndroidPhonePortrait => Some(("Android Phone (Portrait)"@, 412u32, 915u32, 24u32, 48u32)),
        DisplayProfile::AndroidPhoneLandscape => Some(("Android Phone (Landscape)"@, 915u32, 412u32, 24u32, 48u32)),
        DisplayProfile::AndroidTablet => Some(("Android Tablet"@, 1280u32, 800u32, 24u32, 48u32)),
    }
}

/// The label shown for a profile.
pub open spec fn profile_label(p: DisplayProfile) -> Seq<char> {
    match profile_spec(p) {
        Some(s) => s.0,
        None => "Free Aspect (Editor)"@,
    }
}

/// What a profile spec is for the contracts.
pub open spec fn spec_view(s: DisplayProfileSpec) -> (Seq<char>, u32, u32, u32, u32) {
    (s.label@, s.width, s.height, s.safe_top, s.safe_bottom)
}

impl DisplayProfile {
    /// Every profile, the free-aspect default first.
    pub const ALL: [DisplayProfile; 8] = [
        DisplayProfile::Default,
        DisplayProfile::IPhonePortrait,
        DisplayProfile::IPhoneLandscape,
        DisplayProfile::IPadPortrait,
        DisplayProfile::IPadLandscape,
        DisplayProfile::AndroidPhonePortrait,
        DisplayProfile::AndroidPhoneLandscape,
        DisplayProfile::AndroidTablet,
    ];

    /// The spec of this profile; `None` for the default.
    pub fn spec(self) -> (r: Option<DisplayProfileSpec>)
        ensures
            r matches Some(s) ==> profile_spec(self) == Some(spec_view(s)),
            r is None ==> profile_spec(self) is None,
    {
        match self {
            DisplayProfile::Default => None,
            DisplayProfile::IPhonePortrait => Some(DisplayProfileSpec { label: "iPhone (Portrait)", width: 393, height: 852, safe_top: 59, safe_bottom: 34 }),
            DisplayProfile::IPhoneLandscape => Some(DisplayProfileSpec { label: "iPhone (Landscape)", width: 852, height: 393, safe_top: 0, safe_bottom: 21 }),
            DisplayProfile::IPadPortrait => Some(DisplayProfileSpec { label: "iPad (Portrait)", width: 834, height: 1194, safe_top: 24, safe_bottom: 20 }),
            DisplayProfile::IPadLandscape => Some(DisplayProfileSpec { label: "iPad (Landscape)", width: 1194, height: 834, safe_top: 24, safe_bottom: 20 }),
            DisplayProfile::AndroidPhonePortrait => Some(DisplayProfileSpec { label: "Android Phone (Portrait)", width: 412, height: 915, safe_top: 24, safe_bottom: 48 }),
            DisplayProfile::AndroidPhoneLandscape => Some(DisplayProfileSpec { label: "Android Phone (Landscape)", width: 915, height: 412, safe_top: 24, safe_bottom: 48 }),
            DisplayProfile::AndroidTablet => Some(DisplayProfileSpec { label: "Android Tablet", width: 1280, height: 800, safe_top: 24, safe_bottom: 48 }),
        }
    }

    pub fn label(self) -> (r: &'static str)
        ensures
            r@ == profile_label(self),
    {
        match self.spec() {
            Some(s) => s.label,
            None => "Free Aspect (Editor)",
        }
    }
}

/// Portrait profiles are taller than wide; landscape ones wider than tall.
pub proof fn lemma_profile_orientation()
    ensures
        forall|p: DisplayProfile|
            (p == DisplayProfile::IPhonePortrait || p == DisplayProfile::IPadPortrait || p
                == DisplayProfile::AndroidPhonePortrait) ==> (#[trigger] profile_spec(p) matches Some(
                s,
            ) && s.2 > s.1),
        forall|p: DisplayProfile|
            (p == DisplayProfile::IPhoneLandscape || p == DisplayProfile::IPadLandscape || p
                == DisplayProfile::AndroidPhoneLandscape || p == DisplayProfile::AndroidTablet) ==> (
            #[trigger] profile_spec(p) matches Some(s) && s.1 > s.2),
{
}

/// The iPhone portrait profile reserves a safe area at the top (the Dynamic
/// Island) and at the bottom (the home indicator).
pub proof fn lemma_iphone_portrait_safe_area()
    ensures
        profile_spec(DisplayProfile::IPhonePortrait) matches Some(s) && s.3 > 0 && s.4 > 0,
{
}

/// Only the default profile has no spec.
pub proof fn lemma_only_default_is_free()
    ensures
        forall|p: DisplayProfile| #[trigger] profile_spec(p) is None <==> p == DisplayProfile::Default,
{
}

/// No two profiles share a label.
pub proof fn lemma_labels_unique()
    ensures
        forall|p: DisplayProfile, q: DisplayProfile| p != q ==> #[trigger] profile_label(p) != #[trigger] profile_label(q),
{
    reveal_strlit("iPhone (Portrait)");
    assert("iPhone (Portrait)"@.len() == 17);
    reveal_strlit("iPhone (Landscape)");
    assert("iPhone (Landscape)"@.len() == 18);
    reveal_strlit("iPad (Portrait)");
    assert("iPad (Portrait)"@.len() == 15);
    reveal_strlit("iPad (Landscape)");
    assert("iPad (Landscape)"@.len() == 16);
    reveal_strlit("Android Phone (Portrait)");
    assert("Android Phone (Portrait)"@.len() == 24);
    reveal_strlit("Android Phone (Landscape)");
    assert("Android Phone (Landscape)"@.len() == 25);
    reveal_strlit("Android Tablet");
    assert("Android Tablet"@.len() == 14);
    reveal_strlit("Free Aspect (Editor)");
    assert("Free Aspect (Editor)"@.len() == 20);
}

} // verus!
