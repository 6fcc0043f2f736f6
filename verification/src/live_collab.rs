//! Live collaboration session state: who is in the session, their cursors,
//! the chat, and the colour each participant gets.
use crate::text::{chars_of, owned, push_str, seq_eq, slice_of, string_of};
use vstd::prelude::*;

verus! {

#[verifier::external_type_specification]
#[verifier::external_body]
pub struct ExUuid(uuid::Uuid);

/// `uuid::Uuid::new_v4`: a random version-4 UUID. Nothing is stated of it.
#[verifier::external_body]
fn uuid_new_v4() -> uuid::Uuid {
    uuid::Uuid::new_v4()
}

/// Whether `c` is a lower-case hexadecimal digit.
pub open spec fn is_lower_hex(c: char) -> bool {
    ('0' <= c && c <= '9') || ('a' <= c && c <= 'f')
}

/// `Uuid::to_string` (its `Display`, which is `LowerHex`): the hyphenated
/// lower-case form, 36 characters, whose first 8 are hexadecimal digits
/// followed by `-`.
#[verifier::external_body]
fn uuid_to_string(u: &uuid::Uuid) -> (r: String)
    ensures
        r@.len() == 36,
        r@[8] == '-',
        forall|i: int| 0 <= i < 8 ==> is_lower_hex(#[trigger] r@[i]),
{
    u.to_string()
}

/// `whoami::username`: the current user's name. It depends on the machine,
/// so nothing is stated of it.
#[verifier::external_body]
fn current_username() -> String {
    whoami::username()
}

/// A collaborator in the session.
#[derive(Debug, Clone)]
pub struct Collaborator {
    pub id: String,
    pub name: String,
    pub color: [u8; 3],
    pub cursor_line: usize,
    pub cursor_col: usize,
    pub file_path: Option<String>,
    pub is_self: bool,
}

/// A text edit operation from a collaborator.
#[derive(Debug, Clone)]
pub struct CollabEdit {
    pub user_id: String,
    pub file_path: String,
    pub line: usize,
    pub col: usize,
    pub delete_count: usize,
    pub insert_text: String,
    pub timestamp: u64,
}

/// Chat message in the collab session.
#[derive(Debug, Clone)]
pub struct CollabChatMessage {
    pub user_id: String,
    pub user_name: String,
    pub text: String,
    pub timestamp: u64,
}

/// Collaboration session status.
#[derive(Debug, Clone, PartialEq)]
pub enum CollabStatus {
    Inactive,
    Hosting,
    Joining,
    Connected,
    Error(String),
}

/// Live collaboration state.
pub struct CollabState {
    pub status: CollabStatus,
    pub session_id: String,
    pub display_name: String,
    pub collaborators: Vec<Collaborator>,
    pub chat_messages: Vec<CollabChatMessage>,
    pub chat_input: String,
    /// Pending edits from remote collaborators.
    pub pending_edits: Vec<CollabEdit>,
    /// Session share link.
    pub share_link: String,
    /// Colours handed to collaborators in turn.
    pub color_palette: Vec<[u8; 3]>,
    /// How many colours have been handed out (the next colour's index).
    pub next_color_idx: usize,
}

/// The default colour palette: blue, red, green, yellow, purple, orange,
/// teal, pink.
pub open spec fn default_palette() -> Seq<[u8; 3]> {
    seq![
        [66u8, 133u8, 244u8],
        [234u8, 67u8, 53u8],
        [52u8, 168u8, 83u8],
        [251u8, 188u8, 4u8],
        [171u8, 71u8, 188u8],
        [255u8, 112u8, 67u8],
        [0u8, 172u8, 193u8],
        [233u8, 30u8, 99u8],
    ]
}

impl Default for CollabState {
    /// An inactive session for the current user, with the default palette.
    fn default() -> (s: Self)
        ensures
            s.status == CollabStatus::Inactive,
            s.session_id@.len() == 0,
            s.collaborators@.len() == 0,
            s.chat_messages@.len() == 0,
            s.chat_input@.len() == 0,
            s.pending_edits@.len() == 0,
            s.share_link@.len() == 0,
            s.color_palette@ == default_palette(),
            s.color_index() == 0,
    {
        let mut palette: Vec<[u8; 3]> = Vec::new();
        palette.push([66, 133, 244]);
        palette.push([234, 67, 53]);
        palette.push([52, 168, 83]);
        palette.push([251, 188, 4]);
        palette.push([171, 71, 188]);
        palette.push([255, 112, 67]);
        palette.push([0, 172, 193]);
        palette.push([233, 30, 99]);
        assert(palette@ =~= default_palette());
        Self {
            status: CollabStatus::Inactive,
            session_id: String::new(),
            display_name: current_username(),
            collaborators: Vec::new(),
            chat_messages: Vec::new(),
            chat_input: String::new(),
            pending_edits: Vec::new(),
            share_link: String::new(),
            color_palette: palette,
            next_color_idx: 0,
        }
    }
}

/// What the local participant's entry is for the contracts: it is `self`,
/// named after the display name, with the given colour, at 0:0, in no file.
pub open spec fn is_fresh_self(c: Collaborator, name: Seq<char>, color: [u8; 3]) -> bool {
    &&& c.id@ == "self"@
    &&& c.name@ == name
    &&& c.color == color
    &&& c.cursor_line == 0
    &&& c.cursor_col == 0
    &&& c.file_path is None
    &&& c.is_self
}

impl CollabState {
    /// How many colours have been handed out since the session began.
    pub open spec fn color_index(&self) -> nat {
        self.next_color_idx as nat
    }

    /// The colour handed out next.
    pub open spec fn next_color_spec(&self) -> [u8; 3] {
        self.color_palette@[(self.color_index() % self.color_palette@.len()) as int]
    }

    /// Whether another colour can be handed out (the palette is not empty
    /// and the counter has room).
    pub open spec fn can_hand_out_color(&self) -> bool {
        self.color_palette@.len() > 0 && self.color_index() < usize::MAX
    }

    fn next_color(&mut self) -> (c: [u8; 3])
        requires
            old(self).can_hand_out_color(),
        ensures
            c == old(self).next_color_spec(),
            final(self).color_index() == old(self).color_index() + 1,
            final(self).status == old(self).status,
            final(self).session_id == old(self).session_id,
            final(self).display_name == old(self).display_name,
            final(self).collaborators == old(self).collaborators,
            final(self).chat_messages == old(self).chat_messages,
            final(self).chat_input == old(self).chat_input,
            final(self).pending_edits == old(self).pending_edits,
            final(self).share_link == old(self).share_link,
            final(self).color_palette == old(self).color_palette,
    {
        let color = self.color_palette[self.next_color_idx % self.color_palette.len()];
        self.next_color_idx = self.next_color_idx + 1;
        color
    }

    /// Start hosting a new session: a fresh 8-character session id (the
    /// first block of a random UUID), its share link, status Hosting, and
    /// the local participant added with the next colour.
    pub fn host_session(&mut self)
        requires
            old(self).can_hand_out_color(),
        ensures
            final(self).status == CollabStatus::Hosting,
            final(self).session_id@.len() == 8,
            forall|i: int| 0 <= i < 8 ==> is_lower_hex(#[trigger] final(self).session_id@[i]),
            final(self).share_link@ == "berrycode://collab/"@ + final(self).session_id@,
            final(self).collaborators@.len() == old(self).collaborators@.len() + 1,
            final(self).collaborators@.drop_last() == old(self).collaborators@,
            is_fresh_self(
                final(self).collaborators@.last(),
                old(self).display_name@,
                old(self).next_color_spec(),
            ),
            final(self).color_index() == old(self).color_index() + 1,
            final(self).color_palette == old(self).color_palette,
            final(self).display_name == old(self).display_name,
    {
        let u = uuid_new_v4();
        let full = uuid_to_string(&u);
        let fv = chars_of(full.as_str());
        let head = slice_of(fv.as_slice(), 0, 8);
        self.session_id = string_of(head.as_slice());
        let mut link = owned("berrycode://collab/");
        push_str(&mut link, self.session_id.as_str());
        self.share_link = link;
        self.status = CollabStatus::Hosting;
        let color = self.next_color();
        let name = self.display_name.clone();
        let me = Collaborator {
            id: owned("self"),
            name,
            color,
            cursor_line: 0,
            cursor_col: 0,
            file_path: None,
            is_self: true,
        };
        let ghost before = self.collaborators@;
        self.collaborators.push(me);
        assert(self.collaborators@.drop_last() =~= before);
    }

    /// Join an existing session: its id is kept, the local participant is
    /// added with the next colour, and the status becomes Connected.
    pub fn join_session(&mut self, session_id: &str)
        requires
            old(self).can_hand_out_color(),
        ensures
            final(self).status == CollabStatus::Connected,
            final(self).session_id@ == session_id@,
            final(self).collaborators@.len() == old(self).collaborators@.len() + 1,
            final(self).collaborators@.drop_last() == old(self).collaborators@,
            is_fresh_self(
                final(self).collaborators@.last(),
                old(self).display_name@,
                old(self).next_color_spec(),
            ),
            final(self).color_index() == old(self).color_index() + 1,
            final(self).color_palette == old(self).color_palette,
            final(self).display_name == old(self).display_name,
            final(self).share_link == old(self).share_link,
            final(self).chat_messages == old(self).chat_messages,
            final(self).pending_edits == old(self).pending_edits,
    {
        self.session_id = owned(session_id);
        self.status = CollabStatus::Joining;
        let color = self.next_color();
        let name = self.display_name.clone();
        let me = Collaborator {
            id: owned("self"),
            name,
            color,
            cursor_line: 0,
            cursor_col: 0,
            file_path: None,
            is_self: true,
        };
        let ghost before = self.collaborators@;
        self.collaborators.push(me);
        assert(self.collaborators@.drop_last() =~= before);
        self.status = CollabStatus::Connected;
    }

    /// Leave the session: status Inactive, no collaborators, chat or
    /// pending edits, no session id or link, colours start over.
    pub fn leave_session(&mut self)
        ensures
            final(self).status == CollabStatus::Inactive,
            final(self).collaborators@.len() == 0,
            final(self).chat_messages@.len() == 0,
            final(self).pending_edits@.len() == 0,
            final(self).session_id@.len() == 0,
            final(self).share_link@.len() == 0,
            final(self).color_index() == 0,
            final(self).color_palette == old(self).color_palette,
            final(self).display_name == old(self).display_name,
            final(self).chat_input == old(self).chat_input,
    {
        self.status = CollabStatus::Inactive;
        self.collaborators.clear();
        self.chat_messages.clear();
        self.pending_edits.clear();
        self.session_id = String::new();
        self.share_link = String::new();
        self.next_color_idx = 0;
    }

    /// The collaborators other than the local participant, in order.
    pub fn remote_collaborators(&self) -> (r: Vec<&Collaborator>)
        ensures
            r@.map_values(|c: &Collaborator| *c) == self.collaborators@.filter(
                |c: Collaborator| !c.is_self,
            ),
    {
        let mut out: Vec<&Collaborator> = Vec::new();
        let mut i: usize = 0;
        assert(self.collaborators@.take(0) =~= Seq::<Collaborator>::empty());
        while i < self.collaborators.len()
            invariant
                i <= self.collaborators@.len(),
                out@.map_values(|c: &Collaborator| *c) == self.collaborators@.take(i as int).filter(
                    |c: Collaborator| !c.is_self,
                ),
            decreases self.collaborators@.len() - i,
        {
            let ghost before = out@;
            proof {
                reveal_with_fuel(Seq::filter, 1);
                assert(self.collaborators@.take(i + 1).drop_last() =~= self.collaborators@.take(
                    i as int,
                ));
            }
            let c = &self.collaborators[i];
            if !c.is_self {
                out.push(c);
                assert(out@.map_values(|c: &Collaborator| *c) =~= before.map_values(
                    |c: &Collaborator| *c,
                ).push(*c));
            }
            i = i + 1;
        }
        assert(self.collaborators@.take(self.collaborators@.len() as int) =~= self.collaborators@);
        out
    }

    /// The remote cursors shown in `file_path`: (line, column, colour, name)
    /// of each collaborator other than the local one that is in that file.
    pub fn remote_cursors(&self, file_path: &str) -> (r: Vec<(usize, usize, [u8; 3], &str)>)
        ensures
            r@.map_values(|t: (usize, usize, [u8; 3], &str)| (t.0, t.1, t.2, t.3@))
                == self.collaborators@.filter(
                |c: Collaborator| !c.is_self && (c.file_path matches Some(p) && p@ == file_path@),
            ).map_values(|c: Collaborator| (c.cursor_line, c.cursor_col, c.color, c.name@)),
    {
        let fv = chars_of(file_path);
        let mut out: Vec<(usize, usize, [u8; 3], &str)> = Vec::new();
        let mut i: usize = 0;
        let ghost pred = |c: Collaborator|
            !c.is_self && (c.file_path matches Some(p) && p@ == file_path@);
        let ghost proj = |c: Collaborator| (c.cursor_line, c.cursor_col, c.color, c.name@);
        let ghost tv = |t: (usize, usize, [u8; 3], &str)| (t.0, t.1, t.2, t.3@);
        assert(self.collaborators@.take(0) =~= Seq::<Collaborator>::empty());
        while i < self.collaborators.len()
            invariant
                i <= self.collaborators@.len(),
                fv@ == file_path@,
                pred == (|c: Collaborator|
                    !c.is_self && (c.file_path matches Some(p) && p@ == file_path@)),
                proj == (|c: Collaborator| (c.cursor_line, c.cursor_col, c.color, c.name@)),
                tv == (|t: (usize, usize, [u8; 3], &str)| (t.0, t.1, t.2, t.3@)),
                out@.map_values(tv) == self.collaborators@.take(i as int).filter(pred).map_values(
                    proj,
                ),
            decreases self.collaborators@.len() - i,
        {
            let ghost before = out@;
            proof {
                reveal_with_fuel(Seq::filter, 1);
                assert(self.collaborators@.take(i + 1).drop_last() =~= self.collaborators@.take(
                    i as int,
                ));
            }
            let c = &self.collaborators[i];
            let in_file = match &c.file_path {
                Some(p) => {
                    let pv = chars_of(p.as_str());
                    seq_eq(pv.as_slice(), fv.as_slice())
                },
                None => false,
            };
            if !c.is_self && in_file {
                let t = (c.cursor_line, c.cursor_col, c.color, c.name.as_str());
                assert(tv(t) == proj(*c));
                assert(pred(*c));
                assert(self.collaborators@.take(i + 1).last() == *c);
                out.push(t);
                assert(out@.map_values(tv) =~= before.map_values(tv).push(proj(*c)));
                assert(self.collaborators@.take(i + 1).filter(pred) =~= self.collaborators@.take(
                    i as int,
                ).filter(pred).push(*c));
            } else {
                assert(!pred(*c));
                assert(self.collaborators@.take(i + 1).last() == *c);
                assert(self.collaborators@.take(i + 1).filter(pred) =~= self.collaborators@.take(
                    i as int,
                ).filter(pred));
            }
            i = i + 1;
        }
        assert(self.collaborators@.take(self.collaborators@.len() as int) =~= self.collaborators@);
        out
    }
}

/// Collab dialog state.
pub struct CollabDialogState {
    pub open: bool,
    pub join_session_id: String,
    pub tab: CollabDialogTab,
}

#[derive(Debug, Clone, Copy, PartialEq, Eq, Structural)]
pub enum CollabDialogTab {
    Session,
    Chat,
}

impl Default for CollabDialogState {
    fn default() -> (s: Self)
        ensures
            !s.open,
            s.join_session_id@.len() == 0,
            s.tab == CollabDialogTab::Session,
    {
        Self { open: false, join_session_id: String::new(), tab: CollabDialogTab::Session }
    }
}


/// The colours handed out cycle through the palette: a whole round of the
/// palette later, the same colour comes next.
pub proof fn lemma_colors_cycle(s: CollabState, t: CollabState)
    requires
        s.color_palette@.len() > 0,
        t.color_palette@ == s.color_palette@,
        t.color_index() == s.color_index() + s.color_palette@.len(),
    ensures
        t.next_color_spec() == s.next_color_spec(),
{
    vstd::arithmetic::div_mod::lemma_mod_add_multiples_vanish(
        s.color_index() as int,
        s.color_palette@.len() as int,
    );
}

} // verus!
