//! The in-editor game view: which window of the running game to capture, how
//! often, and the name of the crate that is being run.
use vstd::prelude::*;
use crate::text::{
    after_last, after_last_char, chars_of, contains, contains_str, eq_str, find, find_chars,
    lemma_find_bounds, lines, lines_of, owned, push_str, slice_of, starts_with,
    string_of, to_lowercase, trim, trim_chars, unicode_lowercase, views,
};

verus! {

// ───────────────────────── the crate name ─────────────────────────

/// `str::trim_start_matches` with one character.
pub open spec fn strip_leading(s: Seq<char>, c: char) -> Seq<char>
    decreases s.len(),
{
    if s.len() > 0 && s[0] == c {
        strip_leading(s.drop_first(), c)
    } else {
        s
    }
}

/// `str::trim_end_matches` with one character.
pub open spec fn strip_trailing(s: Seq<char>, c: char) -> Seq<char>
    decreases s.len(),
{
    if s.len() > 0 && s.last() == c {
        strip_trailing(s.drop_last(), c)
    } else {
        s
    }
}

/// `str::trim_matches` with one character.
pub open spec fn trim_matches(s: Seq<char>, c: char) -> Seq<char> {
    strip_trailing(strip_leading(s, c), c)
}

/// `t.split('=').nth(1)` for a `t` that holds a `'='`: what lies between its
/// first `'='` and the next one, or the end.
pub open spec fn second_field(t: Seq<char>) -> Seq<char> {
    match find(t, seq!['=']) {
        Some(i) => {
            let rest = t.skip(i + 1);
            match find(rest, seq!['=']) {
                Some(j) => rest.take(j),
                None => rest,
            }
        },
        None => Seq::empty(),
    }
}

/// The name that one manifest line gives: a trimmed line that starts with
/// `name` and holds a `'='`, whose value, trimmed and stripped of double and
/// then single quotes, is not empty.
pub open spec fn manifest_line_name(l: Seq<char>) -> Option<Seq<char>> {
    let t = trim(l);
    if starts_with(t, seq!['n', 'a', 'm', 'e']) && contains(t, seq!['=']) {
        let v = trim_matches(trim_matches(trim(second_field(t)), '"'), '\'');
        if v.len() > 0 {
            Some(v)
        } else {
            None
        }
    } else {
        None
    }
}

/// The first name that the lines give.
pub open spec fn first_manifest_name(ls: Seq<Seq<char>>) -> Option<Seq<char>>
    decreases ls.len(),
{
    if ls.len() == 0 {
        None
    } else {
        match manifest_line_name(ls[0]) {
            Some(n) => Some(n),
            None => first_manifest_name(ls.drop_first()),
        }
    }
}

/// `v` without its leading and trailing `c`.
fn trim_matches_chars(v: &[char], c: char) -> (res: Vec<char>)
    ensures
        res@ == trim_matches(v@, c),
{
    let n = v.len();
    let mut a: usize = 0;
    assert(v@.subrange(0, n as int) =~= v@);
    while a < n && v[a] == c
        invariant
            a <= n == v@.len(),
            strip_leading(v@, c) == strip_leading(v@.subrange(a as int, n as int), c),
        decreases n - a,
    {
        assert(v@.subrange(a as int, n as int).drop_first() =~= v@.subrange(a + 1, n as int));
        a = a + 1;
    }
    let w = slice_of(v, a, n);
    let m = w.len();
    let mut b: usize = m;
    assert(w@.subrange(0, m as int) =~= w@);
    while b > 0 && w[b - 1] == c
        invariant
            b <= m == w@.len(),
            strip_trailing(w@, c) == strip_trailing(w@.subrange(0, b as int), c),
        decreases b,
    {
        assert(w@.subrange(0, b as int).drop_last() =~= w@.subrange(0, b - 1));
        b = b - 1;
    }
    slice_of(w.as_slice(), 0, b)
}

/// The text between the first `'='` of `t` and the next one, or the end.
fn second_field_chars(t: &[char]) -> (res: Vec<char>)
    ensures
        res@ == second_field(t@),
{
    let mut eq: Vec<char> = Vec::new();
    eq.push('=');
    assert(eq@ =~= seq!['=']);
    match find_chars(t, eq.as_slice()) {
        Some(i) => {
            proof {
                lemma_find_bounds(t@, eq@);
                assert(find(t@, eq@) == Some(i as int));
                assert(i + eq@.len() <= t@.len());
            }
            let n = t.len();
            let rest = slice_of(t, i + 1, n);
            assert(rest@ =~= t@.skip(i + 1));
            match find_chars(rest.as_slice(), eq.as_slice()) {
                Some(j) => {
                    proof {
                        lemma_find_bounds(rest@, eq@);
                    }
                    let r = slice_of(rest.as_slice(), 0, j);
                    assert(r@ =~= rest@.take(j as int));
                    r
                },
                None => rest,
            }
        },
        None => Vec::new(),
    }
}

/// The name one manifest line gives, if any.
fn manifest_line_name_of(l: &[char]) -> (r: Option<Vec<char>>)
    ensures
        r matches Some(v) ==> manifest_line_name(l@) == Some(v@),
        r is None ==> manifest_line_name(l@) is None,
{
    let t = trim_chars(l);
    let mut name: Vec<char> = Vec::new();
    name.push('n');
    name.push('a');
    name.push('m');
    name.push('e');
    assert(name@ =~= seq!['n', 'a', 'm', 'e']);
    let mut eq: Vec<char> = Vec::new();
    eq.push('=');
    assert(eq@ =~= seq!['=']);
    let starts = name.len() <= t.len() && crate::text::matches_at(t.as_slice(), name.as_slice(), 0);
    let has_eq = find_chars(t.as_slice(), eq.as_slice()).is_some();
    if starts && has_eq {
        let f = second_field_chars(t.as_slice());
        let f = trim_chars(f.as_slice());
        let f = trim_matches_chars(f.as_slice(), '"');
        let v = trim_matches_chars(f.as_slice(), '\'');
        if v.len() > 0 {
            Some(v)
        } else {
            None
        }
    } else {
        None
    }
}

/// The crate name that a `Cargo.toml` text gives: the value of the first line
/// that starts, once trimmed, with `name` and holds a `'='`, taken between
/// the first `'='` and the next one, trimmed and stripped of quotes, and not
/// empty.
pub fn crate_name_from_manifest(content: &str) -> (r: Option<String>)
    ensures
        r matches Some(s) ==> first_manifest_name(lines(content@)) == Some(s@),
        r is None ==> first_manifest_name(lines(content@)) is None,
{
    let ls = lines_of(content);
    let ghost all = lines(content@);
    let mut i: usize = 0;
    assert(all.skip(0) =~= all);
    while i < ls.len()
        invariant
            i <= ls@.len(),
            views(ls@) == all,
            all == lines(content@),
            first_manifest_name(all) == first_manifest_name(all.skip(i as int)),
        decreases ls@.len() - i,
    {
        assert(all.skip(i as int)[0] == ls@[i as int]@);
        assert(all.skip(i as int).drop_first() =~= all.skip(i + 1));
        match manifest_line_name_of(ls[i].as_slice()) {
            Some(v) => {
                return Some(string_of(v.as_slice()));
            },
            None => {},
        }
        i = i + 1;
    }
    assert(all.skip(i as int) =~= Seq::<Seq<char>>::empty());
    None
}

// ───────────────────────── the window to capture ─────────────────────────

/// What the capture library reports of one open window: its application name
/// and title (empty where it could not say) and its width (`None` where it
/// could not say).
pub struct GameWindowInfo {
    pub app_name: String,
    pub title: String,
    pub width: Option<u32>,
}

/// The project's name: the last `/`-separated part of its root path.
pub open spec fn project_name_spec(root: Seq<char>) -> Seq<char> {
    after_last(root, '/')
}

/// The project's name: the last `/`-separated part of its root path.
pub fn project_name_of(root: &str) -> (r: String)
    ensures
        r@ == project_name_spec(root@),
{
    let v = chars_of(root);
    let w = after_last_char(v.as_slice(), '/');
    string_of(w.as_slice())
}

/// Whether a window is the running game's, compared lower-cased: never the
/// editor's own nor one of width 0, and only while a game process runs; then
/// one whose application name or title holds the project's name (if not
/// empty) or the crate's name, or a Bevy-looking window (titled `App` or with
/// `bevy` in its title) that is not one of some common other applications.
pub open spec fn is_game_window(
    w: GameWindowInfo,
    has_process: bool,
    project: Seq<char>,
    crate_name: Option<String>,
) -> bool {
    let a = unicode_lowercase(w.app_name@);
    let t = unicode_lowercase(w.title@);
    let p = unicode_lowercase(project);
    if contains(a, "berrycode"@) || contains(t, "berrycode"@) {
        false
    } else if w.width == Some(0u32) {
        false
    } else if !has_process {
        false
    } else if p.len() > 0 && (contains(a, p) || contains(t, p)) {
        true
    } else if crate_name matches Some(cn) && (contains(a, unicode_lowercase(cn@)) || contains(
        t,
        unicode_lowercase(cn@),
    )) {
        true
    } else {
        (w.title@ == "App"@ || contains(t, "bevy"@)) && !contains(a, "finder"@) && !contains(
            a,
            "system"@,
        ) && !contains(a, "chrome"@) && !contains(a, "discord"@) && !contains(a, "code"@)
            && !contains(a, "iterm"@)
    }
}

/// The editor's own window, a window of width 0, and any window while no
/// game process runs are never taken for the game's.
pub proof fn lemma_never_captured(
    w: GameWindowInfo,
    has_process: bool,
    project: Seq<char>,
    crate_name: Option<String>,
)
    requires
        contains(unicode_lowercase(w.app_name@), "berrycode"@) || contains(
            unicode_lowercase(w.title@),
            "berrycode"@,
        ) || w.width == Some(0u32) || !has_process,
    ensures
        !is_game_window(w, has_process, project, crate_name),
{
}

/// Whether `n` occurs in `h`.
fn holds(h: &Vec<char>, n: &Vec<char>) -> (r: bool)
    ensures
        r == contains(h@, n@),
{
    find_chars(h.as_slice(), n.as_slice()).is_some()
}

/// Whether a window is the running game's (see `is_game_window`).
pub fn game_window_matches(
    w: &GameWindowInfo,
    has_process: bool,
    project: &str,
    crate_name: &Option<String>,
) -> (r: bool)
    ensures
        r == is_game_window(*w, has_process, project@, *crate_name),
{
    let a = chars_of(to_lowercase(w.app_name.as_str()).as_str());
    let t = chars_of(to_lowercase(w.title.as_str()).as_str());
    if contains_str(a.as_slice(), "berrycode") || contains_str(t.as_slice(), "berrycode") {
        return false;
    }
    if let Some(width) = w.width {
        if width == 0 {
            return false;
        }
    }
    if !has_process {
        return false;
    }
    let p = chars_of(to_lowercase(project).as_str());
    if p.len() > 0 && (holds(&a, &p) || holds(&t, &p)) {
        return true;
    }
    if let Some(cn) = crate_name {
        let c = chars_of(to_lowercase(cn.as_str()).as_str());
        if holds(&a, &c) || holds(&t, &c) {
            return true;
        }
    }
    let title = chars_of(w.title.as_str());
    (eq_str(title.as_slice(), "App") || contains_str(t.as_slice(), "bevy")) && !contains_str(
        a.as_slice(),
        "finder",
    ) && !contains_str(a.as_slice(), "system") && !contains_str(a.as_slice(), "chrome")
        && !contains_str(a.as_slice(), "discord") && !contains_str(a.as_slice(), "code")
        && !contains_str(a.as_slice(), "iterm")
}

/// The first window, in the order given, that is the running game's.
pub fn pick_game_window(
    windows: &Vec<GameWindowInfo>,
    has_process: bool,
    root_path: &str,
    crate_name: &Option<String>,
) -> (r: Option<usize>)
    ensures
        r matches Some(i) ==> i < windows@.len() && is_game_window(
            windows@[i as int],
            has_process,
            project_name_spec(root_path@),
            *crate_name,
        ) && forall|k: int|
            0 <= k < i ==> !is_game_window(
                #[trigger] windows@[k],
                has_process,
                project_name_spec(root_path@),
                *crate_name,
            ),
        r is None ==> forall|k: int|
            0 <= k < windows@.len() ==> !is_game_window(
                #[trigger] windows@[k],
                has_process,
                project_name_spec(root_path@),
                *crate_name,
            ),
{
    let project = project_name_of(root_path);
    let mut i: usize = 0;
    while i < windows.len()
        invariant
            i <= windows@.len(),
            project@ == project_name_spec(root_path@),
            forall|k: int|
                0 <= k < i ==> !is_game_window(
                    #[trigger] windows@[k],
                    has_process,
                    project_name_spec(root_path@),
                    *crate_name,
                ),
        decreases windows@.len() - i,
    {
        if game_window_matches(&windows[i], has_process, project.as_str(), crate_name) {
            return Some(i);
        }
        i = i + 1;
    }
    None
}

/// The least time between two captures, in milliseconds.
pub const CAPTURE_INTERVAL_MS: u64 = 100;

/// Whether to capture the game window now: only while a game runs and the
/// view is open, and not within the interval since the last capture.
pub fn capture_due(running: bool, view_open: bool, since_last_ms: Option<u64>) -> (r: bool)
    ensures
        r == (running && view_open && match since_last_ms {
            Some(ms) => ms >= CAPTURE_INTERVAL_MS,
            None => true,
        }),
{
    if !running || !view_open {
        return false;
    }
    match since_last_ms {
        Some(ms) => ms >= CAPTURE_INTERVAL_MS,
        None => true,
    }
}

// ───────────────────────── hiding the game's own window ─────────────────────────

/// The host the editor runs on, as far as hiding a window goes.
pub enum HostPlatform {
    MacOs,
    Linux,
    Windows,
    Other,
}

/// The AppleScript that hides an application's process.
pub open spec fn apple_hide_script(app: Seq<char>) -> Seq<char> {
    "tell application \"System Events\" to set visible of process \""@ + app + "\" to false"@
}

/// The PowerShell script that moves an application's main window off screen.
pub open spec fn powershell_move_script(app: Seq<char>) -> Seq<char> {
    "Add-Type -TypeDefinition 'using System; using System.Runtime.InteropServices; public class W { [DllImport(\"user32.dll\")] public static extern bool MoveWindow(IntPtr h,int x,int y,int w,int ht,bool r); }'; $p = Get-Process -Name '"@
        + app
        + "' -ErrorAction SilentlyContinue | Select-Object -First 1; if ($p) { [W]::MoveWindow($p.MainWindowHandle, -10000, -10000, 800, 600, $true) }"@
}

/// The views of a list of strings.
pub open spec fn string_views(v: Seq<String>) -> Seq<Seq<char>> {
    v.map_values(|s: String| s@)
}

/// The program and arguments that hide the game's window on each host.
pub open spec fn hide_command_spec(host: HostPlatform, app: Seq<char>) -> Option<
    (Seq<char>, Seq<Seq<char>>),
> {
    match host {
        HostPlatform::MacOs => Some(("osascript"@, seq!["-e"@, apple_hide_script(app)])),
        HostPlatform::Linux => Some(
            (
                "xdotool"@,
                seq![
                    "search"@,
                    "--name"@,
                    app,
                    "windowmove"@,
                    "--"@,
                    "-10000"@,
                    "-10000"@,
                ],
            ),
        ),
        HostPlatform::Windows => Some(
            (
                "powershell"@,
                seq!["-WindowStyle"@, "Hidden"@, "-Command"@, powershell_move_script(app)],
            ),
        ),
        HostPlatform::Other => None,
    }
}

/// The program and arguments that hide the window of the application `app`
/// (AppleScript on macOS, `xdotool` on Linux, PowerShell on Windows).
pub fn hide_window_command(host: HostPlatform, app: &str) -> (r: Option<(String, Vec<String>)>)
    ensures
        r matches Some(c) ==> hide_command_spec(host, app@) == Some((c.0@, string_views(c.1@))),
        r is None ==> hide_command_spec(host, app@) is None,
{
    match host {
        HostPlatform::MacOs => {
            let mut script = String::new();
            push_str(&mut script, "tell application \"System Events\" to set visible of process \"");
            push_str(&mut script, app);
            push_str(&mut script, "\" to false");
            assert(script@ =~= apple_hide_script(app@));
            let mut args: Vec<String> = Vec::new();
            args.push(owned("-e"));
            args.push(script);
            proof {
                assert(string_views(args@) =~= seq!["-e"@, apple_hide_script(app@)]);
            }
            Some((owned("osascript"), args))
        },
        HostPlatform::Linux => {
            let mut args: Vec<String> = Vec::new();
            args.push(owned("search"));
            args.push(owned("--name"));
            args.push(owned(app));
            args.push(owned("windowmove"));
            args.push(owned("--"));
            args.push(owned("-10000"));
            args.push(owned("-10000"));
            proof {
                assert(string_views(args@) =~= seq![
                    "search"@,
                    "--name"@,
                    app@,
                    "windowmove"@,
                    "--"@,
                    "-10000"@,
                    "-10000"@,
                ]);
            }
            Some((owned("xdotool"), args))
        },
        HostPlatform::Windows => {
            let mut script = String::new();
            push_str(&mut script, "Add-Type -TypeDefinition 'using System; using System.Runtime.InteropServices; public class W { [DllImport(\"user32.dll\")] public static extern bool MoveWindow(IntPtr h,int x,int y,int w,int ht,bool r); }'; $p = Get-Process -Name '");
            push_str(&mut script, app);
            push_str(&mut script, "' -ErrorAction SilentlyContinue | Select-Object -First 1; if ($p) { [W]::MoveWindow($p.MainWindowHandle, -10000, -10000, 800, 600, $true) }");
            assert(script@ =~= powershell_move_script(app@));
            let mut args: Vec<String> = Vec::new();
            args.push(owned("-WindowStyle"));
            args.push(owned("Hidden"));
            args.push(owned("-Command"));
            args.push(script);
            proof {
                assert(string_views(args@) =~= seq![
                    "-WindowStyle"@,
                    "Hidden"@,
                    "-Command"@,
                    powershell_move_script(app@),
                ]);
            }
            Some((owned("powershell"), args))
        },
        HostPlatform::Other => None,
    }
}

} // verus!
