//! Customisable keyboard shortcuts: the actions, their default bindings,
//! and whether a binding is pressed in a frame's input.
use crate::text::{chars_of, eq_str, owned, push_str};
use vstd::prelude::*;

verus! {

#[derive(Debug, Clone, Copy, PartialEq, Eq, Hash, Structural)]
pub enum KeyAction {
    Save,
    Undo,
    Redo,
    Find,
    Replace,
    Format,
    DuplicateLine,
    AddCursorNext,
    GizmoMove,
    GizmoRotate,
    GizmoScale,
    RunProject,
    ToggleBreakpoint,
    StartDebug,
    PeekDefinition,
    Rename,
    FoldBlock,
    UnfoldBlock,
    DeleteEntity,
    DuplicateEntity,
    Escape,
}

pub open spec fn action_label(a: KeyAction) -> Seq<char> {
    match a {
        KeyAction::Save => "Save"@,
        KeyAction::Undo => "Undo"@,
        KeyAction::Redo => "Redo"@,
        KeyAction::Find => "Find"@,
        KeyAction::Replace => "Replace"@,
        KeyAction::Format => "Format"@,
        KeyAction::DuplicateLine => "Duplicate Line"@,
        KeyAction::AddCursorNext => "Add Cursor at Next"@,
        KeyAction::GizmoMove => "Gizmo: Move"@,
        KeyAction::GizmoRotate => "Gizmo: Rotate"@,
        KeyAction::GizmoScale => "Gizmo: Scale"@,
        KeyAction::RunProject => "Run Project"@,
        KeyAction::ToggleBreakpoint => "Toggle Breakpoint"@,
        KeyAction::StartDebug => "Start Debug"@,
        KeyAction::PeekDefinition => "Peek Definition"@,
        KeyAction::Rename => "Rename Symbol"@,
        KeyAction::FoldBlock => "Fold Block"@,
        KeyAction::UnfoldBlock => "Unfold Block"@,
        KeyAction::DeleteEntity => "Delete Entity"@,
        KeyAction::DuplicateEntity => "Duplicate Entity"@,
        KeyAction::Escape => "Escape"@,
    }
}

impl KeyAction {
    /// Every action, in declaration order.
    pub const ALL: [KeyAction; 21] = [
        KeyAction::Save,
        KeyAction::Undo,
        KeyAction::Redo,
        KeyAction::Find,
        KeyAction::Replace,
        KeyAction::Format,
        KeyAction::DuplicateLine,
        KeyAction::AddCursorNext,
        KeyAction::GizmoMove,
        KeyAction::GizmoRotate,
        KeyAction::GizmoScale,
        KeyAction::RunProject,
        KeyAction::ToggleBreakpoint,
        KeyAction::StartDebug,
        KeyAction::PeekDefinition,
        KeyAction::Rename,
        KeyAction::FoldBlock,
        KeyAction::UnfoldBlock,
        KeyAction::DeleteEntity,
        KeyAction::DuplicateEntity,
        KeyAction::Escape,
    ];

    pub fn label(&self) -> (r: &'static str)
        ensures
            r@ == action_label(*self),
    {
        match self {
            KeyAction::Save => "Save",
            KeyAction::Undo => "Undo",
            KeyAction::Redo => "Redo",
            KeyAction::Find => "Find",
            KeyAction::Replace => "Replace",
            KeyAction::Format => "Format",
            KeyAction::DuplicateLine => "Duplicate Line",
            KeyAction::AddCursorNext => "Add Cursor at Next",
            KeyAction::GizmoMove => "Gizmo: Move",
            KeyAction::GizmoRotate => "Gizmo: Rotate",
            KeyAction::GizmoScale => "Gizmo: Scale",
            KeyAction::RunProject => "Run Project",
            KeyAction::ToggleBreakpoint => "Toggle Breakpoint",
            KeyAction::StartDebug => "Start Debug",
            KeyAction::PeekDefinition => "Peek Definition",
            KeyAction::Rename => "Rename Symbol",
            KeyAction::FoldBlock => "Fold Block",
            KeyAction::UnfoldBlock => "Unfold Block",
            KeyAction::DeleteEntity => "Delete Entity",
            KeyAction::DuplicateEntity => "Duplicate Entity",
            KeyAction::Escape => "Escape",
        }
    }
}

#[derive(Debug, Clone)]
pub struct KeyBinding {
    pub command: bool,
    pub shift: bool,
    pub alt: bool,
    pub key: String,
}

/// "Cmd+Alt+Shift+Key", with the modifiers that are set, in that order.
pub open spec fn binding_display(command: bool, alt: bool, shift: bool, key: Seq<char>) -> Seq<char> {
    (if command {
        "Cmd+"@
    } else {
        ""@
    }) + (if alt {
        "Alt+"@
    } else {
        ""@
    }) + (if shift {
        "Shift+"@
    } else {
        ""@
    }) + key
}

impl KeyBinding {
    pub fn display(&self) -> (r: String)
        ensures
            r@ == binding_display(self.command, self.alt, self.shift, self.key@),
    {
        let mut s = String::new();
        proof {
            reveal_strlit("");
        }
        if self.command {
            push_str(&mut s, "Cmd+");
        }
        let ghost a = s@;
        if self.alt {
            push_str(&mut s, "Alt+");
        }
        let ghost b = s@;
        if self.shift {
            push_str(&mut s, "Shift+");
        }
        let ghost c = s@;
        push_str(&mut s, self.key.as_str());
        assert(s@ =~= binding_display(self.command, self.alt, self.shift, self.key@));
        s
    }
}

/// What a binding is for the contracts: (command, shift, alt, key).
pub open spec fn binding_view(b: KeyBinding) -> (bool, bool, bool, Seq<char>) {
    (b.command, b.shift, b.alt, b.key@)
}

/// The default binding of each action.
pub open spec fn default_binding(a: KeyAction) -> (bool, bool, bool, Seq<char>) {
    match a {
        KeyAction::Save => (true, false, false, "S"@),
        KeyAction::Undo => (true, false, false, "Z"@),
        KeyAction::Redo => (true, true, false, "Z"@),
        KeyAction::Find => (true, false, false, "F"@),
        KeyAction::Replace => (true, false, false, "H"@),
        KeyAction::Format => (true, true, false, "F"@),
        KeyAction::DuplicateLine => (true, true, false, "D"@),
        KeyAction::AddCursorNext => (true, false, false, "D"@),
        KeyAction::GizmoMove => (false, false, false, "W"@),
        KeyAction::GizmoRotate => (false, false, false, "E"@),
        KeyAction::GizmoScale => (false, false, false, "R"@),
        KeyAction::RunProject => (true, false, false, "R"@),
        KeyAction::ToggleBreakpoint => (false, false, false, "F9"@),
        KeyAction::StartDebug => (false, false, false, "F5"@),
        KeyAction::PeekDefinition => (false, false, true, "F12"@),
        KeyAction::Rename => (false, false, false, "F2"@),
        KeyAction::FoldBlock => (true, true, false, "OpenBracket"@),
        KeyAction::UnfoldBlock => (true, true, false, "CloseBracket"@),
        KeyAction::DeleteEntity => (false, false, false, "Delete"@),
        KeyAction::DuplicateEntity => (true, false, false, "D"@),
        KeyAction::Escape => (false, false, false, "Escape"@),
    }
}

/// The bindings of a keymap, one per action at most.
#[derive(Debug, Clone)]
pub struct Keymap {
    bindings: Vec<(KeyAction, KeyBinding)>,
}

/// The binding of `a` in a list of entries (the first entry for it).
pub open spec fn lookup(entries: Seq<(KeyAction, KeyBinding)>, a: KeyAction) -> Option<KeyBinding>
    decreases entries.len(),
{
    if entries.len() == 0 {
        None
    } else if entries[0].0 == a {
        Some(entries[0].1)
    } else {
        lookup(entries.drop_first(), a)
    }
}

/// No action has two entries.
pub open spec fn unique_actions(entries: Seq<(KeyAction, KeyBinding)>) -> bool {
    forall|i: int, j: int| 0 <= i < j < entries.len() ==> entries[i].0 != entries[j].0
}

fn binding(command: bool, shift: bool, alt: bool, key: &str) -> (b: KeyBinding)
    ensures
        binding_view(b) == (command, shift, alt, key@),
{
    KeyBinding { command, shift, alt, key: owned(key) }
}

impl Keymap {
    /// The binding of each action, if any.
    pub closed spec fn entries(&self) -> Seq<(KeyAction, KeyBinding)> {
        self.bindings@
    }

    pub closed spec fn wf(&self) -> bool {
        unique_actions(self.bindings@)
    }

    /// The binding of an action.
    pub open spec fn binding_of(&self, a: KeyAction) -> Option<KeyBinding> {
        lookup(self.entries(), a)
    }

    /// A keymap with no binding (to fill from a saved file).
    pub fn empty() -> (km: Self)
        ensures
            km.wf(),
            km.entries().len() == 0,
            forall|a: KeyAction| #[trigger] km.binding_of(a) is None,
    {
        Keymap { bindings: Vec::new() }
    }

    /// The number of bound actions.
    pub fn len(&self) -> (n: usize)
        ensures
            n == self.entries().len(),
    {
        self.bindings.len()
    }

    /// The binding of an action.
    pub fn get(&self, action: KeyAction) -> (r: Option<&KeyBinding>)
        ensures
            r matches Some(b) ==> self.binding_of(action) == Some(*b),
            r is None ==> self.binding_of(action) is None,
    {
        let mut i: usize = 0;
        assert(self.bindings@.skip(0) =~= self.bindings@);
        while i < self.bindings.len()
            invariant
                i <= self.bindings@.len(),
                lookup(self.bindings@, action) == lookup(self.bindings@.skip(i as int), action),
            decreases self.bindings@.len() - i,
        {
            assert(self.bindings@.skip(i as int)[0] == self.bindings@[i as int]);
            assert(self.bindings@.skip(i as int).drop_first() =~= self.bindings@.skip(i + 1));
            if self.bindings[i].0 == action {
                return Some(&self.bindings[i].1);
            }
            i = i + 1;
        }
        None
    }

    /// Whether an action has a binding.
    pub fn contains_key(&self, action: KeyAction) -> (r: bool)
        ensures
            r == self.binding_of(action) is Some,
    {
        self.get(action).is_some()
    }

    /// Binds `action` to `b`, replacing its previous binding.
    pub fn set(&mut self, action: KeyAction, b: KeyBinding)
        requires
            old(self).wf(),
        ensures
            final(self).wf(),
            final(self).binding_of(action) == Some(b),
            forall|x: KeyAction| x != action ==> final(self).binding_of(x) == old(self).binding_of(x),
    {
        let ghost e0 = self.bindings@;
        let mut i: usize = 0;
        while i < self.bindings.len()
            invariant
                i <= self.bindings@.len(),
                self.bindings@ == e0,
                old(self).bindings@ == e0,
                unique_actions(e0),
                forall|k: int| 0 <= k < i ==> e0[k].0 != action,
            decreases self.bindings@.len() - i,
        {
            if self.bindings[i].0 == action {
                self.bindings.set(i, (action, b));
                proof {
                    lemma_lookup_update(e0, i as int, action, b);
                    assert(self.bindings@ == e0.update(i as int, (action, b)));
                    assert forall|x: KeyAction| x != action implies self.binding_of(x) == old(
                        self,
                    ).binding_of(x) by {
                        assert(lookup(e0.update(i as int, (action, b)), x) == lookup(e0, x));
                    }
                }
                return;
            }
            i = i + 1;
        }
        self.bindings.push((action, b));
        proof {
            lemma_lookup_push(e0, action, b);
            assert forall|x: KeyAction| x != action implies self.binding_of(x) == old(self).binding_of(
                x,
            ) by {
                assert(lookup(e0.push((action, b)), x) == lookup(e0, x));
            }
        }
    }
}

/// Replacing the entry of `a` at `i` rebinds `a` and keeps the others.
pub proof fn lemma_lookup_update(e: Seq<(KeyAction, KeyBinding)>, i: int, a: KeyAction, b: KeyBinding)
    requires
        unique_actions(e),
        0 <= i < e.len(),
        e[i].0 == a,
    ensures
        unique_actions(e.update(i, (a, b))),
        lookup(e.update(i, (a, b)), a) == Some(b),
        forall|x: KeyAction| x != a ==> #[trigger] lookup(e.update(i, (a, b)), x) == lookup(e, x),
    decreases e.len(),
{
    let u = e.update(i, (a, b));
    assert forall|p: int, q: int| 0 <= p < q < u.len() implies u[p].0 != u[q].0 by {
        assert(u[p].0 == e[p].0);
        assert(u[q].0 == e[q].0);
    }
    if i == 0 {
        assert(u.drop_first() =~= e.drop_first());
        assert forall|x: KeyAction| x != a implies #[trigger] lookup(u, x) == lookup(e, x) by {
        }
    } else {
        assert(u.drop_first() =~= e.drop_first().update(i - 1, (a, b)));
        assert(unique_actions(e.drop_first())) by {
            assert forall|p: int, q: int| 0 <= p < q < e.drop_first().len() implies e.drop_first()[p].0
                != e.drop_first()[q].0 by {
                assert(e.drop_first()[p] == e[p + 1]);
                assert(e.drop_first()[q] == e[q + 1]);
            }
        }
        assert(e[0].0 != a);
        lemma_lookup_update(e.drop_first(), i - 1, a, b);
        assert forall|x: KeyAction| x != a implies #[trigger] lookup(u, x) == lookup(e, x) by {
            assert(lookup(e.drop_first().update(i - 1, (a, b)), x) == lookup(e.drop_first(), x));
        }
    }
}

/// Appending an entry for an action that had none binds it and keeps the
/// others.
pub proof fn lemma_lookup_push(e: Seq<(KeyAction, KeyBinding)>, a: KeyAction, b: KeyBinding)
    requires
        unique_actions(e),
        forall|k: int| 0 <= k < e.len() ==> e[k].0 != a,
    ensures
        unique_actions(e.push((a, b))),
        lookup(e.push((a, b)), a) == Some(b),
        forall|x: KeyAction| x != a ==> #[trigger] lookup(e.push((a, b)), x) == lookup(e, x),
    decreases e.len(),
{
    let u = e.push((a, b));
    if e.len() == 0 {
        assert(u.drop_first() =~= Seq::<(KeyAction, KeyBinding)>::empty());
        assert forall|x: KeyAction| x != a implies #[trigger] lookup(u, x) == lookup(e, x) by {
            assert(lookup(u.drop_first(), x) is None);
        }
    } else {
        assert(u.drop_first() =~= e.drop_first().push((a, b)));
        assert(unique_actions(e.drop_first())) by {
            assert forall|p: int, q: int| 0 <= p < q < e.drop_first().len() implies e.drop_first()[p].0
                != e.drop_first()[q].0 by {
                assert(e.drop_first()[p] == e[p + 1]);
                assert(e.drop_first()[q] == e[q + 1]);
            }
        }
        assert forall|k: int| 0 <= k < e.drop_first().len() implies e.drop_first()[k].0 != a by {
            assert(e.drop_first()[k] == e[k + 1]);
        }
        lemma_lookup_push(e.drop_first(), a, b);
        assert forall|x: KeyAction| x != a implies #[trigger] lookup(u, x) == lookup(e, x) by {
            assert(lookup(e.drop_first().push((a, b)), x) == lookup(e.drop_first(), x));
        }
    }
    assert forall|p: int, q: int| 0 <= p < q < u.len() implies u[p].0 != u[q].0 by {
        if q == e.len() {
            assert(u[p] == e[p]);
        } else {
            assert(u[p] == e[p]);
            assert(u[q] == e[q]);
        }
    }
}

impl Default for Keymap {
    /// Every action bound to its default binding.
    fn default() -> (km: Self)
        ensures
            km.wf(),
            km.entries().len() == 21,
            forall|a: KeyAction| (#[trigger] km.binding_of(a)) matches Some(b) && binding_view(b)
                == default_binding(a),
    {
        let mut bindings: Vec<(KeyAction, KeyBinding)> = Vec::new();
        bindings.push((KeyAction::Save, binding(true, false, false, "S")));
        bindings.push((KeyAction::Undo, binding(true, false, false, "Z")));
        bindings.push((KeyAction::Redo, binding(true, true, false, "Z")));
        bindings.push((KeyAction::Find, binding(true, false, false, "F")));
        bindings.push((KeyAction::Replace, binding(true, false, false, "H")));
        bindings.push((KeyAction::Format, binding(true, true, false, "F")));
        bindings.push((KeyAction::DuplicateLine, binding(true, true, false, "D")));
        bindings.push((KeyAction::AddCursorNext, binding(true, false, false, "D")));
        bindings.push((KeyAction::GizmoMove, binding(false, false, false, "W")));
        bindings.push((KeyAction::GizmoRotate, binding(false, false, false, "E")));
        bindings.push((KeyAction::GizmoScale, binding(false, false, false, "R")));
        bindings.push((KeyAction::RunProject, binding(true, false, false, "R")));
        bindings.push((KeyAction::ToggleBreakpoint, binding(false, false, false, "F9")));
        bindings.push((KeyAction::StartDebug, binding(false, false, false, "F5")));
        bindings.push((KeyAction::PeekDefinition, binding(false, false, true, "F12")));
        bindings.push((KeyAction::Rename, binding(false, false, false, "F2")));
        bindings.push((KeyAction::FoldBlock, binding(true, true, false, "OpenBracket")));
        bindings.push((KeyAction::UnfoldBlock, binding(true, true, false, "CloseBracket")));
        bindings.push((KeyAction::DeleteEntity, binding(false, false, false, "Delete")));
        bindings.push((KeyAction::DuplicateEntity, binding(true, false, false, "D")));
        bindings.push((KeyAction::Escape, binding(false, false, false, "Escape")));
        let km = Keymap { bindings };
        assert(km.wf());
        assert forall|a: KeyAction| (#[trigger] km.binding_of(a)) matches Some(b) && binding_view(b)
            == default_binding(a) by {
            reveal_with_fuel(lookup, 22);
        }
        km
    }
}

#[derive(Debug, Clone, Copy, PartialEq, Eq, Structural)]
pub enum KeyCode {
    A,
    B,
    C,
    D,
    E,
    F,
    G,
    H,
    I,
    J,
    K,
    L,
    M,
    N,
    O,
    P,
    Q,
    R,
    S,
    T,
    U,
    V,
    W,
    X,
    Y,
    Z,
    F1,
    F2,
    F3,
    F4,
    F5,
    F6,
    F7,
    F8,
    F9,
    F10,
    F11,
    F12,
    Escape,
    Delete,
    Backspace,
    OpenBracket,
    CloseBracket,
}

/// The key a binding's key name stands for.
pub open spec fn key_from_name(name: Seq<char>) -> Option<KeyCode> {
    if false {
        None
    } else if name == "A"@ {
        Some(KeyCode::A)
    } else if name == "B"@ {
        Some(KeyCode::B)
    } else if name == "C"@ {
        Some(KeyCode::C)
    } else if name == "D"@ {
        Some(KeyCode::D)
    } else if name == "E"@ {
        Some(KeyCode::E)
    } else if name == "F"@ {
        Some(KeyCode::F)
    } else if name == "G"@ {
        Some(KeyCode::G)
    } else if name == "H"@ {
        Some(KeyCode::H)
    } else if name == "I"@ {
        Some(KeyCode::I)
    } else if name == "J"@ {
        Some(KeyCode::J)
    } else if name == "K"@ {
        Some(KeyCode::K)
    } else if name == "L"@ {
        Some(KeyCode::L)
    } else if name == "M"@ {
        Some(KeyCode::M)
    } else if name == "N"@ {
        Some(KeyCode::N)
    } else if name == "O"@ {
        Some(KeyCode::O)
    } else if name == "P"@ {
        Some(KeyCode::P)
    } else if name == "Q"@ {
        Some(KeyCode::Q)
    } else if name == "R"@ {
        Some(KeyCode::R)
    } else if name == "S"@ {
        Some(KeyCode::S)
    } else if name == "T"@ {
        Some(KeyCode::T)
    } else if name == "U"@ {
        Some(KeyCode::U)
    } else if name == "V"@ {
        Some(KeyCode::V)
    } else if name == "W"@ {
        Some(KeyCode::W)
    } else if name == "X"@ {
        Some(KeyCode::X)
    } else if name == "Y"@ {
        Some(KeyCode::Y)
    } else if name == "Z"@ {
        Some(KeyCode::Z)
    } else if name == "F1"@ {
        Some(KeyCode::F1)
    } else if name == "F2"@ {
        Some(KeyCode::F2)
    } else if name == "F3"@ {
        Some(KeyCode::F3)
    } else if name == "F4"@ {
        Some(KeyCode::F4)
    } else if name == "F5"@ {
        Some(KeyCode::F5)
    } else if name == "F6"@ {
        Some(KeyCode::F6)
    } else if name == "F7"@ {
        Some(KeyCode::F7)
    } else if name == "F8"@ {
        Some(KeyCode::F8)
    } else if name == "F9"@ {
        Some(KeyCode::F9)
    } else if name == "F10"@ {
        Some(KeyCode::F10)
    } else if name == "F11"@ {
        Some(KeyCode::F11)
    } else if name == "F12"@ {
        Some(KeyCode::F12)
    } else if name == "Escape"@ {
        Some(KeyCode::Escape)
    } else if name == "Delete"@ {
        Some(KeyCode::Delete)
    } else if name == "Backspace"@ {
        Some(KeyCode::Backspace)
    } else if name == "OpenBracket"@ {
        Some(KeyCode::OpenBracket)
    } else if name == "CloseBracket"@ {
        Some(KeyCode::CloseBracket)
    } else {
        None
    }
}

/// The key named by a binding's key name.
pub fn key_code_of(name: &str) -> (r: Option<KeyCode>)
    ensures
        r == key_from_name(name@),
{
    let v = chars_of(name);
    if eq_str(v.as_slice(), "A") {
        return Some(KeyCode::A);
    }
    if eq_str(v.as_slice(), "B") {
        return Some(KeyCode::B);
    }
    if eq_str(v.as_slice(), "C") {
        return Some(KeyCode::C);
    }
    if eq_str(v.as_slice(), "D") {
        return Some(KeyCode::D);
    }
    if eq_str(v.as_slice(), "E") {
        return Some(KeyCode::E);
    }
    if eq_str(v.as_slice(), "F") {
        return Some(KeyCode::F);
    }
    if eq_str(v.as_slice(), "G") {
        return Some(KeyCode::G);
    }
    if eq_str(v.as_slice(), "H") {
        return Some(KeyCode::H);
    }
    if eq_str(v.as_slice(), "I") {
        return Some(KeyCode::I);
    }
    if eq_str(v.as_slice(), "J") {
        return Some(KeyCode::J);
    }
    if eq_str(v.as_slice(), "K") {
        return Some(KeyCode::K);
    }
    if eq_str(v.as_slice(), "L") {
        return Some(KeyCode::L);
    }
    if eq_str(v.as_slice(), "M") {
        return Some(KeyCode::M);
    }
    if eq_str(v.as_slice(), "N") {
        return Some(KeyCode::N);
    }
    if eq_str(v.as_slice(), "O") {
        return Some(KeyCode::O);
    }
    if eq_str(v.as_slice(), "P") {
        return Some(KeyCode::P);
    }
    if eq_str(v.as_slice(), "Q") {
        return Some(KeyCode::Q);
    }
    if eq_str(v.as_slice(), "R") {
        return Some(KeyCode::R);
    }
    if eq_str(v.as_slice(), "S") {
        return Some(KeyCode::S);
    }
    if eq_str(v.as_slice(), "T") {
        return Some(KeyCode::T);
    }
    if eq_str(v.as_slice(), "U") {
        return Some(KeyCode::U);
    }
    if eq_str(v.as_slice(), "V") {
        return Some(KeyCode::V);
    }
    if eq_str(v.as_slice(), "W") {
        return Some(KeyCode::W);
    }
    if eq_str(v.as_slice(), "X") {
        return Some(KeyCode::X);
    }
    if eq_str(v.as_slice(), "Y") {
        return Some(KeyCode::Y);
    }
    if eq_str(v.as_slice(), "Z") {
        return Some(KeyCode::Z);
    }
    if eq_str(v.as_slice(), "F1") {
        return Some(KeyCode::F1);
    }
    if eq_str(v.as_slice(), "F2") {
        return Some(KeyCode::F2);
    }
    if eq_str(v.as_slice(), "F3") {
        return Some(KeyCode::F3);
    }
    if eq_str(v.as_slice(), "F4") {
        return Some(KeyCode::F4);
    }
    if eq_str(v.as_slice(), "F5") {
        return Some(KeyCode::F5);
    }
    if eq_str(v.as_slice(), "F6") {
        return Some(KeyCode::F6);
    }
    if eq_str(v.as_slice(), "F7") {
        return Some(KeyCode::F7);
    }
    if eq_str(v.as_slice(), "F8") {
        return Some(KeyCode::F8);
    }
    if eq_str(v.as_slice(), "F9") {
        return Some(KeyCode::F9);
    }
    if eq_str(v.as_slice(), "F10") {
        return Some(KeyCode::F10);
    }
    if eq_str(v.as_slice(), "F11") {
        return Some(KeyCode::F11);
    }
    if eq_str(v.as_slice(), "F12") {
        return Some(KeyCode::F12);
    }
    if eq_str(v.as_slice(), "Escape") {
        return Some(KeyCode::Escape);
    }
    if eq_str(v.as_slice(), "Delete") {
        return Some(KeyCode::Delete);
    }
    if eq_str(v.as_slice(), "Backspace") {
        return Some(KeyCode::Backspace);
    }
    if eq_str(v.as_slice(), "OpenBracket") {
        return Some(KeyCode::OpenBracket);
    }
    if eq_str(v.as_slice(), "CloseBracket") {
        return Some(KeyCode::CloseBracket);
    }
    None
}

/// The input of one frame that shortcuts look at: the modifier state and
/// the keys pressed this frame.
#[derive(Debug, Clone)]
pub struct KeyInput {
    pub command: bool,
    pub shift: bool,
    pub alt: bool,
    pub pressed: Vec<KeyCode>,
}

/// Whether the binding of `action` is pressed: it exists, its modifiers are
/// exactly the held ones, its key name is known, and that key was pressed.
pub open spec fn pressed_spec(km: &Keymap, action: KeyAction, input: KeyInput) -> bool {
    match km.binding_of(action) {
        None => false,
        Some(b) => b.command == input.command && b.shift == input.shift && b.alt == input.alt && match key_from_name(b.key@) {
            None => false,
            Some(k) => input.pressed@.contains(k),
        },
    }
}

impl Keymap {
    /// Whether an action's binding is pressed this frame.
    pub fn is_pressed(&self, action: KeyAction, input: &KeyInput) -> (r: bool)
        ensures
            r == pressed_spec(self, action, *input),
    {
        let b = match self.get(action) {
            Some(b) => b,
            None => return false,
        };
        if input.command != b.command {
            return false;
        }
        if input.shift != b.shift {
            return false;
        }
        if input.alt != b.alt {
            return false;
        }
        let key = match key_code_of(b.key.as_str()) {
            Some(k) => k,
            None => return false,
        };
        let mut i: usize = 0;
        while i < input.pressed.len()
            invariant
                i <= input.pressed@.len(),
                self.binding_of(action) == Some(*b),
                input.command == b.command && input.shift == b.shift && input.alt == b.alt,
                key_from_name(b.key@) == Some(key),
                forall|j: int| 0 <= j < i ==> input.pressed@[j] != key,
            decreases input.pressed@.len() - i,
        {
            if input.pressed[i] == key {
                assert(input.pressed@.contains(key));
                return true;
            }
            i = i + 1;
        }
        false
    }
}


/// Every action has a label to show.
pub proof fn lemma_action_labels_nonempty(a: KeyAction)
    ensures
        action_label(a).len() > 0,
{
    match a {
        KeyAction::Save => {
            reveal_strlit("Save");
            assert("Save"@.len() == 4);
        },
        KeyAction::Undo => {
            reveal_strlit("Undo");
            assert("Undo"@.len() == 4);
        },
        KeyAction::Redo => {
            reveal_strlit("Redo");
            assert("Redo"@.len() == 4);
        },
        KeyAction::Find => {
            reveal_strlit("Find");
            assert("Find"@.len() == 4);
        },
        KeyAction::Replace => {
            reveal_strlit("Replace");
            assert("Replace"@.len() == 7);
        },
        KeyAction::Format => {
            reveal_strlit("Format");
            assert("Format"@.len() == 6);
        },
        KeyAction::DuplicateLine => {
            reveal_strlit("Duplicate Line");
            assert("Duplicate Line"@.len() == 14);
        },
        KeyAction::AddCursorNext => {
            reveal_strlit("Add Cursor at Next");
            assert("Add Cursor at Next"@.len() == 18);
        },
        KeyAction::GizmoMove => {
            reveal_strlit("Gizmo: Move");
            assert("Gizmo: Move"@.len() == 11);
        },
        KeyAction::GizmoRotate => {
            reveal_strlit("Gizmo: Rotate");
            assert("Gizmo: Rotate"@.len() == 13);
        },
        KeyAction::GizmoScale => {
            reveal_strlit("Gizmo: Scale");
            assert("Gizmo: Scale"@.len() == 12);
        },
        KeyAction::RunProject => {
            reveal_strlit("Run Project");
            assert("Run Project"@.len() == 11);
        },
        KeyAction::ToggleBreakpoint => {
            reveal_strlit("Toggle Breakpoint");
            assert("Toggle Breakpoint"@.len() == 17);
        },
        KeyAction::StartDebug => {
            reveal_strlit("Start Debug");
            assert("Start Debug"@.len() == 11);
        },
        KeyAction::PeekDefinition => {
            reveal_strlit("Peek Definition");
            assert("Peek Definition"@.len() == 15);
        },
        KeyAction::Rename => {
            reveal_strlit("Rename Symbol");
            assert("Rename Symbol"@.len() == 13);
        },
        KeyAction::FoldBlock => {
            reveal_strlit("Fold Block");
            assert("Fold Block"@.len() == 10);
        },
        KeyAction::UnfoldBlock => {
            reveal_strlit("Unfold Block");
            assert("Unfold Block"@.len() == 12);
        },
        KeyAction::DeleteEntity => {
            reveal_strlit("Delete Entity");
            assert("Delete Entity"@.len() == 13);
        },
        KeyAction::DuplicateEntity => {
            reveal_strlit("Duplicate Entity");
            assert("Duplicate Entity"@.len() == 16);
        },
        KeyAction::Escape => {
            reveal_strlit("Escape");
            assert("Escape"@.len() == 6);
        },
    }
}

/// A binding counts as pressed only when the held command, shift and alt
/// modifiers are exactly the binding's, and its key is among those pressed.
pub proof fn lemma_pressed_needs_exact_modifiers(km: &Keymap, action: KeyAction, input: KeyInput)
    requires
        pressed_spec(km, action, input),
    ensures
        km.binding_of(action) is Some,
        km.binding_of(action).unwrap().command == input.command,
        km.binding_of(action).unwrap().shift == input.shift,
        km.binding_of(action).unwrap().alt == input.alt,
        key_from_name(km.binding_of(action).unwrap().key@) matches Some(k) && input.pressed@.contains(k),
{
}

/// Two actions bound to the same key with the same command and alt
/// modifiers but different shift (as Undo `Cmd+Z` and Redo `Cmd+Shift+Z`)
/// are never pressed by the same input.
pub proof fn lemma_shift_variants_exclusive(km: &Keymap, a1: KeyAction, a2: KeyAction, input: KeyInput)
    requires
        km.binding_of(a1) is Some,
        km.binding_of(a2) is Some,
        km.binding_of(a1).unwrap().shift != km.binding_of(a2).unwrap().shift,
    ensures
        !(pressed_spec(km, a1, input) && pressed_spec(km, a2, input)),
{
}

} // verus!
