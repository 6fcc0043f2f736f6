//! The editor frame's bookkeeping decisions: which project to open, the
//! recent-projects list, what to reload when files change, what a close
//! request does, where a dropped file goes, the panel shortcuts and the
//! polling throttle. Reading and writing the disk and drawing are left to
//! the caller.
use crate::probe::strs;
use crate::text::{join, join_chars, lines, lines_of, owned, push_str, string_of, views};
use vstd::prelude::*;

verus! {

// ───────────────────────── the project to open ─────────────────────────

/// The project to open: the command-line argument when it names a
/// directory, else `$BERRYCODE_PROJECT` when it names one, else none (the
/// empty path, which shows the project picker).
pub open spec fn project_path_spec(
    cli_arg: Option<Seq<char>>,
    cli_is_dir: bool,
    env_var: Option<Seq<char>>,
    env_is_dir: bool,
) -> Seq<char> {
    match cli_arg {
        Some(p) if cli_is_dir => p,
        _ => match env_var {
            Some(p) if env_is_dir => p,
            _ => Seq::empty(),
        },
    }
}

/// Which project to open at start-up.
pub fn resolve_project_path(
    cli_arg: Option<String>,
    cli_is_dir: bool,
    env_var: Option<String>,
    env_is_dir: bool,
) -> (r: String)
    ensures
        r@ == project_path_spec(
            match cli_arg {
                Some(s) => Some(s@),
                None => None,
            },
            cli_is_dir,
            match env_var {
                Some(s) => Some(s@),
                None => None,
            },
            env_is_dir,
        ),
{
    match cli_arg {
        Some(p) => {
            if cli_is_dir {
                return p;
            }
        },
        None => {},
    }
    match env_var {
        Some(p) => {
            if env_is_dir {
                return p;
            }
        },
        None => {},
    }
    String::new()
}

// ───────────────────────── recent projects ─────────────────────────

/// How many recent projects are kept.
pub const RECENT_LIMIT: usize = 10;

/// The recent-projects list after opening `path`: it moves to the front,
/// no other entry for it stays, and only the first ten are kept.
pub open spec fn recent_after_open(projects: Seq<Seq<char>>, path: Seq<char>) -> Seq<Seq<char>> {
    let rest = projects.filter(|p: Seq<char>| p != path);
    let all = seq![path] + rest;
    if all.len() > 10 {
        all.take(10)
    } else {
        all
    }
}

/// The recent-projects list after opening `path`.
pub fn update_recent_projects(projects: &Vec<String>, path: &str) -> (r: Vec<String>)
    ensures
        strs(r@) == recent_after_open(strs(projects@), path@),
{
    let ghost keep = |p: Seq<char>| p != path@;
    let ghost pv = strs(projects@);
    let mut out: Vec<String> = Vec::new();
    out.push(owned(path));
    let pathv = crate::text::chars_of(path);
    let mut i: usize = 0;
    assert(pv.take(0) =~= Seq::<Seq<char>>::empty());
    assert(strs(out@) =~= seq![path@] + pv.take(0).filter(keep));
    while i < projects.len()
        invariant
            i <= projects@.len(),
            pv == strs(projects@),
            pathv@ == path@,
            keep == (|p: Seq<char>| p != path@),
            strs(out@) == seq![path@] + pv.take(i as int).filter(keep),
        decreases projects@.len() - i,
    {
        proof {
            reveal_with_fuel(Seq::filter, 1);
            assert(pv.take(i + 1).drop_last() =~= pv.take(i as int));
            assert(pv.take(i + 1).last() == projects@[i as int]@);
        }
        let pc = crate::text::chars_of(projects[i].as_str());
        if !crate::text::seq_eq(pc.as_slice(), pathv.as_slice()) {
            let ghost before = strs(out@);
            out.push(owned(projects[i].as_str()));
            assert(strs(out@) =~= before.push(projects@[i as int]@));
        }
        i = i + 1;
    }
    assert(pv.take(projects@.len() as int) =~= pv);
    if out.len() > RECENT_LIMIT {
        out.truncate(RECENT_LIMIT);
        assert(strs(out@) =~= (seq![path@] + pv.filter(keep)).take(10));
    }
    out
}

/// After opening a project, it is first in the recent list, occurs there
/// once, and the list holds at most ten entries.
pub proof fn lemma_recent_front_unique_bounded(projects: Seq<Seq<char>>, path: Seq<char>)
    ensures
        recent_after_open(projects, path).len() <= 10,
        recent_after_open(projects, path)[0] == path,
        forall|i: int|
            0 < i < recent_after_open(projects, path).len() ==> #[trigger] recent_after_open(
                projects,
                path,
            )[i] != path,
{
    broadcast use vstd::seq_lib::group_filter_ensures;

    let rest = projects.filter(|p: Seq<char>| p != path);
    let all = seq![path] + rest;
    assert forall|i: int| 0 < i < all.len() implies #[trigger] all[i] != path by {
        assert(all[i] == rest[i - 1]);
    }
}

/// The recent projects stored in a file: its non-empty lines, in order
/// (the caller keeps those that are still directories).
pub open spec fn recent_candidates(ls: Seq<Seq<char>>) -> Seq<Seq<char>> {
    ls.filter(|l: Seq<char>| l.len() > 0)
}

/// The recent projects stored in the text of the list file.
pub fn recent_project_candidates(text: &str) -> (r: Vec<String>)
    ensures
        strs(r@) == recent_candidates(lines(text@)),
{
    let ls = lines_of(text);
    let ghost all = views(ls@);
    let ghost keep = |l: Seq<char>| l.len() > 0;
    let mut out: Vec<String> = Vec::new();
    let mut i: usize = 0;
    assert(all.take(0) =~= Seq::<Seq<char>>::empty());
    while i < ls.len()
        invariant
            i <= ls@.len(),
            all == views(ls@),
            keep == (|l: Seq<char>| l.len() > 0),
            strs(out@) == all.take(i as int).filter(keep),
        decreases ls@.len() - i,
    {
        proof {
            reveal_with_fuel(Seq::filter, 1);
            assert(all.take(i + 1).drop_last() =~= all.take(i as int));
            assert(all.take(i + 1).last() == ls@[i as int]@);
        }
        if ls[i].len() > 0 {
            let ghost before = strs(out@);
            out.push(string_of(ls[i].as_slice()));
            assert(strs(out@) =~= before.push(ls@[i as int]@));
        }
        i = i + 1;
    }
    assert(all.take(ls@.len() as int) =~= all);
    out
}

/// The text of the list file: the projects, one per line.
pub fn recent_projects_text(projects: &Vec<String>) -> (r: String)
    ensures
        r@ == join(strs(projects@), "\n"@),
{
    let mut parts: Vec<Vec<char>> = Vec::new();
    let mut i: usize = 0;
    while i < projects.len()
        invariant
            i <= projects@.len(),
            views(parts@) == strs(projects@).take(i as int),
        decreases projects@.len() - i,
    {
        let ghost before = views(parts@);
        parts.push(crate::text::chars_of(projects[i].as_str()));
        assert(views(parts@) =~= before.push(projects@[i as int]@));
        assert(strs(projects@).take(i + 1) =~= strs(projects@).take(i as int).push(projects@[i as int]@));
        i = i + 1;
    }
    assert(strs(projects@).take(projects@.len() as int) =~= strs(projects@));
    let joined = join_chars(parts.as_slice(), "\n");
    string_of(joined.as_slice())
}

// ───────────────────────── file-watcher reloads ─────────────────────────

/// What to reload after file-system events.
#[derive(Debug)]
pub enum ReloadPlan {
    /// Something changed directly in the project root: rebuild the tree.
    WholeTree,
    /// Reload these expanded directories.
    Dirs(Vec<String>),
}

/// Whether a directory is among the strings.
pub open spec fn in_strs(v: Seq<String>, d: Seq<char>) -> bool {
    exists|i: int| 0 <= i < v.len() && #[trigger] v[i]@ == d
}

fn contains_string(v: &Vec<String>, d: &str) -> (r: bool)
    ensures
        r == in_strs(v@, d@),
{
    let dv = crate::text::chars_of(d);
    let mut i: usize = 0;
    while i < v.len()
        invariant
            i <= v@.len(),
            dv@ == d@,
            forall|k: int| 0 <= k < i ==> v@[k]@ != d@,
        decreases v@.len() - i,
    {
        let cv = crate::text::chars_of(v[i].as_str());
        if crate::text::seq_eq(cv.as_slice(), dv.as_slice()) {
            return true;
        }
        i = i + 1;
    }
    false
}

/// What to reload, given the parent directories of the changed paths: the
/// whole tree when one of them is the project root; otherwise each changed
/// directory that is expanded in the tree, once.
pub fn watcher_reload_plan(root: &str, changed_parents: &Vec<String>, expanded: &Vec<String>) -> (r:
    ReloadPlan)
    ensures
        r is WholeTree <==> in_strs(changed_parents@, root@),
        r matches ReloadPlan::Dirs(ds) ==> {
            &&& forall|d: Seq<char>| in_strs(ds@, d) <==> (in_strs(changed_parents@, d) && in_strs(expanded@, d))
            &&& forall|i: int, j: int| 0 <= i < j < ds@.len() ==> #[trigger] ds@[i]@ != #[trigger] ds@[j]@
        },
{
    if contains_string(changed_parents, root) {
        return ReloadPlan::WholeTree;
    }
    let mut out: Vec<String> = Vec::new();
    let mut i: usize = 0;
    while i < changed_parents.len()
        invariant
            i <= changed_parents@.len(),
            forall|d: Seq<char>|
                in_strs(out@, d) <==> (exists|k: int|
                    0 <= k < i && #[trigger] changed_parents@[k]@ == d && in_strs(expanded@, d)),
            forall|a: int, b: int| 0 <= a < b < out@.len() ==> #[trigger] out@[a]@ != #[trigger] out@[b]@,
        decreases changed_parents@.len() - i,
    {
        let d = changed_parents[i].as_str();
        let ghost before0 = out@;
        let is_expanded = contains_string(expanded, d);
        let seen = contains_string(&out, d);
        if is_expanded && !seen {
            let ghost before = out@;
            out.push(owned(d));
            proof {
                assert forall|x: Seq<char>| in_strs(out@, x) <==> (in_strs(before, x) || x == d@) by {
                    if in_strs(out@, x) {
                        let k = choose|k: int| 0 <= k < out@.len() && #[trigger] out@[k]@ == x;
                        if k < before.len() {
                            assert(before[k] == out@[k]);
                        }
                    }
                    if in_strs(before, x) {
                        let k = choose|k: int| 0 <= k < before.len() && #[trigger] before[k]@ == x;
                        assert(out@[k] == before[k]);
                    }
                    if x == d@ {
                        assert(out@[before.len() as int]@ == x);
                    }
                }
            }
        }
        proof {
            assert forall|x: Seq<char>|
                in_strs(out@, x) <==> (exists|k: int|
                    0 <= k < i + 1 && #[trigger] changed_parents@[k]@ == x && in_strs(expanded@, x)) by {
                if exists|k: int| 0 <= k < i + 1 && #[trigger] changed_parents@[k]@ == x && in_strs(expanded@, x) {
                    let k = choose|k: int| 0 <= k < i + 1 && #[trigger] changed_parents@[k]@ == x && in_strs(expanded@, x);
                    if k < i {
                        assert(in_strs(before0, x));
                    }
                }
                if in_strs(before0, x) {
                    let k = choose|k: int| 0 <= k < i && #[trigger] changed_parents@[k]@ == x && in_strs(expanded@, x);
                    assert(0 <= k < i + 1);
                }
                if x == d@ && is_expanded {
                    assert(changed_parents@[i as int]@ == x);
                }
            }
        }
        i = i + 1;
    }
    assert forall|d: Seq<char>| in_strs(out@, d) <==> (in_strs(changed_parents@, d) && in_strs(expanded@, d)) by {
        if in_strs(changed_parents@, d) && in_strs(expanded@, d) {
            let k = choose|k: int| 0 <= k < changed_parents@.len() && #[trigger] changed_parents@[k]@ == d;
            assert(0 <= k < i);
        }
    }
    ReloadPlan::Dirs(out)
}

// ───────────────────────── closing the window ─────────────────────────

/// What a close request does: ask first when a tab has unsaved changes,
/// otherwise quit.
pub fn close_requested_shows_confirm(dirty_tabs: &Vec<bool>) -> (r: bool)
    ensures
        r == exists|i: int| 0 <= i < dirty_tabs@.len() && #[trigger] dirty_tabs@[i],
{
    let mut i: usize = 0;
    while i < dirty_tabs.len()
        invariant
            i <= dirty_tabs@.len(),
            forall|k: int| 0 <= k < i ==> !dirty_tabs@[k],
        decreases dirty_tabs@.len() - i,
    {
        if dirty_tabs[i] {
            return true;
        }
        i = i + 1;
    }
    false
}

// ───────────────────────── dropped files ─────────────────────────

/// Where a dropped file goes: the deepest tree folder under the pointer
/// (the longest path in bytes; the last one among equals), or the project
/// root.
pub open spec fn drop_target_spec(under_pointer: Seq<Seq<char>>, root: Seq<char>) -> Seq<char>
    decreases under_pointer.len(),
{
    if under_pointer.len() == 0 {
        root
    } else {
        let prev = drop_target_spec(under_pointer.drop_last(), root);
        if under_pointer.len() == 1 || vstd::utf8::encode_utf8(under_pointer.last()).len()
            >= vstd::utf8::encode_utf8(prev).len() {
            under_pointer.last()
        } else {
            prev
        }
    }
}

/// The folder a dropped file is copied into, given the tree folders whose
/// rows are under the pointer.
pub fn drop_target_dir(under_pointer: &Vec<String>, root: &str) -> (r: String)
    ensures
        r@ == drop_target_spec(strs(under_pointer@), root@),
{
    if under_pointer.len() == 0 {
        return owned(root);
    }
    let ghost pv = strs(under_pointer@);
    let mut best: usize = 0;
    let mut best_len = under_pointer[0].as_str().as_bytes().len();
    let mut i: usize = 1;
    proof {
        assert(pv.take(1).drop_last() =~= Seq::<Seq<char>>::empty());
    }
    assert(drop_target_spec(pv.take(1), root@) == pv[0]);
    while i < under_pointer.len()
        invariant
            1 <= i <= under_pointer@.len(),
            pv == strs(under_pointer@),
            best < i,
            best_len == vstd::utf8::encode_utf8(pv[best as int]).len(),
            drop_target_spec(pv.take(i as int), root@) == pv[best as int],
        decreases under_pointer@.len() - i,
    {
        assert(pv.take(i + 1).drop_last() =~= pv.take(i as int));
        let n = under_pointer[i].as_str().as_bytes().len();
        if n >= best_len {
            best = i;
            best_len = n;
        }
        i = i + 1;
    }
    assert(pv.take(under_pointer@.len() as int) =~= pv);
    owned(under_pointer[best].as_str())
}

/// Where a dropped entry lands: `<target>/<name>`.
pub fn drop_destination(target_dir: &str, name: &str) -> (r: String)
    ensures
        r@ == target_dir@ + "/"@ + name@,
{
    let mut s = owned(target_dir);
    push_str(&mut s, "/");
    push_str(&mut s, name);
    s
}

// ───────────────────────── shortcuts and polling ─────────────────────────

/// The side panels the activity bar switches between.
#[derive(Debug, Clone, Copy, PartialEq, Eq, Structural)]
pub enum ActivePanel {
    Explorer,
    Search,
    Git,
    Terminal,
    EcsInspector,
    SceneEditor,
}

/// The panel that Cmd+<digit> opens: 1 Explorer, 2 Search, 3 Git,
/// 4 Terminal, 5 ECS Inspector, 6 Scene Editor.
pub open spec fn panel_for_digit_spec(d: u8) -> Option<ActivePanel> {
    if d == 1 {
        Some(ActivePanel::Explorer)
    } else if d == 2 {
        Some(ActivePanel::Search)
    } else if d == 3 {
        Some(ActivePanel::Git)
    } else if d == 4 {
        Some(ActivePanel::Terminal)
    } else if d == 5 {
        Some(ActivePanel::EcsInspector)
    } else if d == 6 {
        Some(ActivePanel::SceneEditor)
    } else {
        None
    }
}

/// The panel that Cmd+<digit> opens, if any.
pub fn panel_for_digit(d: u8) -> (r: Option<ActivePanel>)
    ensures
        r == panel_for_digit_spec(d),
{
    if d == 1 {
        Some(ActivePanel::Explorer)
    } else if d == 2 {
        Some(ActivePanel::Search)
    } else if d == 3 {
        Some(ActivePanel::Git)
    } else if d == 4 {
        Some(ActivePanel::Terminal)
    } else if d == 5 {
        Some(ActivePanel::EcsInspector)
    } else if d == 6 {
        Some(ActivePanel::SceneEditor)
    } else {
        None
    }
}

/// The active panel after the frame's Cmd+digit presses (each pressed
/// digit, in order 1 to 6; the last one wins); unchanged without Cmd.
pub fn panel_after_shortcuts(current: ActivePanel, command: bool, digits_pressed: [bool; 6]) -> (r:
    ActivePanel)
    ensures
        !command ==> r == current,
        command && (forall|k: int| 0 <= k < 6 ==> !digits_pressed[k]) ==> r == current,
        command ==> forall|k: int|
            0 <= k < 6 && digits_pressed[k] && (forall|j: int| k < j < 6 ==> !digits_pressed[j])
                ==> panel_for_digit_spec((k + 1) as u8) == Some(r),
{
    if !command {
        return current;
    }
    let mut p = current;
    let mut k: usize = 0;
    while k < 6
        invariant
            k <= 6,
            (forall|q: int| 0 <= q < k ==> !digits_pressed[q]) ==> p == current,
            forall|q: int|
                0 <= q < k && digits_pressed[q] && (forall|j: int| q < j < k ==> !digits_pressed[j])
                    ==> panel_for_digit_spec((q + 1) as u8) == Some(p),
        decreases 6 - k,
    {
        if digits_pressed[k] {
            match panel_for_digit((k + 1) as u8) {
                Some(q) => {
                    p = q;
                },
                None => {},
            }
        }
        k = k + 1;
    }
    p
}

/// Whether the background pollers run this frame: on the first frame, and
/// then once at least 50 ms have passed since they last ran.
pub fn poll_due(ms_since_last: Option<u64>) -> (r: bool)
    ensures
        r == match ms_since_last {
            Some(ms) => ms >= 50,
            None => true,
        },
{
    match ms_since_last {
        Some(ms) => ms >= 50,
        None => true,
    }
}

} // verus!
