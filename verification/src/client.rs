//! What the client keeps between key strokes: the lines it shows, who it is
//! logged in as, and what a command asks of the program around it.

use vstd::prelude::*;
use vstd::string::StringExecFns;
use crate::text::concat;
use crate::text::is_prefix_of;
use crate::text::starts_with;
use crate::text::str_eq;
use crate::user::guest_prefix;
use crate::user::root_prefix;

verus! {

/// What the program is to do after a command.
#[derive(Clone, Copy, Debug, PartialEq, Eq, Structural)]
pub enum HandleCommandStatus {
    /// Leave the program.
    Exit,
    /// Go on.
    Continue,
}

/// What a closed dialogue asks for.
#[derive(Clone, Copy, Debug, PartialEq, Eq, Structural)]
pub enum CommandAction {
    Login,
    Register,
}

/// Why the client could not go on.
#[derive(Clone, Copy, Debug, PartialEq, Eq, Structural)]
pub enum ClientErr {
    JoinErr,
}

impl ClientErr {
    /// The error in words.
    pub fn message(&self) -> (s: String)
        ensures
            s@ == "ClientErr ouccurs!"@,
    {
        String::from_str("ClientErr ouccurs!")
    }
}

/// The mark that is shown beside an id: `%` for a guest, `#` for an id that
/// begins with `root`, `@` for any other.
pub open spec fn mark_of(id: Seq<char>) -> char {
    if is_prefix_of(guest_prefix(), id) {
        '%'
    } else if is_prefix_of(root_prefix(), id) {
        '#'
    } else {
        '@'
    }
}

/// The mark that is shown beside an id.
pub fn get_mark(id: &str) -> (mark: char)
    ensures
        mark == mark_of(id@),
{
    if starts_with(id, "guest_") {
        '%'
    } else if starts_with(id, "root") {
        '#'
    } else {
        '@'
    }
}

/// Who the client is logged in as, and where.
#[derive(Clone, Debug)]
pub struct State {
    /// The id in use.
    pub id: String,
    /// The channel that the client is on.
    pub channel: String,
    /// Whether the client is a guest.
    pub is_guest: bool,
}

impl State {
    /// The state of a client that has just come in as a guest: on the entry
    /// channel `public`.
    pub fn new_guest(id: &str) -> (state: State)
        ensures
            state.id@ == id@,
            state.channel@ == "public"@,
            state.is_guest,
    {
        State { id: String::from_str(id), channel: String::from_str("public"), is_guest: true }
    }
}

/// How a line of the message list is shown.
#[derive(Clone, Copy, Debug, PartialEq, Eq, Structural)]
pub enum LineKind {
    /// A notice of the program.
    System,
    /// An error notice of the program.
    SystemError,
    /// A message of a user.
    Chat,
}

/// The kind of the line that is shown for a message under the name `id`.
pub open spec fn line_kind(id: Seq<char>) -> LineKind {
    if id == "System"@ {
        LineKind::System
    } else if id == "SystemError"@ {
        LineKind::SystemError
    } else {
        LineKind::Chat
    }
}

/// The text of the line that is shown for `msg` under the name `id`.
pub open spec fn line_text(id: Seq<char>, msg: Seq<char>) -> Seq<char> {
    match line_kind(id) {
        LineKind::System => "[System]: "@ + msg,
        LineKind::SystemError => "[SystemError]: "@ + msg,
        LineKind::Chat => id + ": "@ + msg,
    }
}

/// The messages that the client shows, oldest first, each with the name it
/// came under.
#[derive(Clone, Debug, Default)]
pub struct MessageChannel {
    pub messages: Vec<(String, String)>,
}

impl MessageChannel {
    /// The names and texts of the messages.
    pub open spec fn entries(&self) -> Seq<(Seq<char>, Seq<char>)> {
        Seq::new(self.messages@.len(), |i: int| (self.messages@[i].0@, self.messages@[i].1@))
    }

    /// Adds a message under the name `id`.
    pub fn push(&mut self, id: String, msg: String)
        ensures
            final(self).entries() == old(self).entries().push((id@, msg@)),
    {
        self.messages.push((id, msg));
        assert(self.entries() =~= old(self).entries().push((id@, msg@)));
    }

    /// Adds a notice of the program.
    pub fn push_sys_msg(&mut self, msg: String)
        ensures
            final(self).entries() == old(self).entries().push(("System"@, msg@)),
    {
        self.push(String::from_str("System"), msg);
    }

    /// Adds an error notice of the program.
    pub fn push_sys_err(&mut self, msg: String)
        ensures
            final(self).entries() == old(self).entries().push(("SystemError"@, msg@)),
    {
        self.push(String::from_str("SystemError"), msg);
    }

    /// The lines that are shown for the messages, each with its kind.
    pub fn lines(&self) -> (out: Vec<(LineKind, String)>)
        ensures
            out@.len() == self.entries().len(),
            forall|i: int|
                0 <= i < out@.len() ==> (#[trigger] out@[i]).0 == line_kind(self.entries()[i].0)
                    && out@[i].1@ == line_text(self.entries()[i].0, self.entries()[i].1),
    {
        let mut out: Vec<(LineKind, String)> = Vec::new();
        let mut i: usize = 0;
        while i < self.messages.len()
            invariant
                i <= self.messages.len(),
                out@.len() == i,
                forall|k: int|
                    0 <= k < i ==> (#[trigger] out@[k]).0 == line_kind(self.entries()[k].0)
                        && out@[k].1@ == line_text(self.entries()[k].0, self.entries()[k].1),
            decreases self.messages.len() - i,
        {
            let id = self.messages[i].0.as_str();
            let msg = self.messages[i].1.as_str();
            let line = if str_eq(id, "System") {
                (LineKind::System, concat("[System]: ", msg))
            } else if str_eq(id, "SystemError") {
                (LineKind::SystemError, concat("[SystemError]: ", msg))
            } else {
                let mut text = concat(id, ": ");
                text.append(msg);
                (LineKind::Chat, text)
            };
            out.push(line);
            i += 1;
        }
        out
    }
}

} // verus!
