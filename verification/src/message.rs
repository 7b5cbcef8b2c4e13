//! The messages that a filter reads and answers, and what every filter offers.

use vstd::prelude::*;

verus! {

/// The part of a note that a filter reads: its id and its author's key.
#[derive(Clone, Debug)]
pub struct Note {
    pub id: String,
    pub pubkey: String,
}

/// A note together with the address it came from.
#[derive(Clone, Debug)]
pub struct InputMessage {
    pub event: Note,
    pub source_info: String,
}

/// What is to be done with a note.
#[derive(Clone, Copy, Debug, PartialEq, Eq, Structural)]
pub enum Action {
    Accept,
    Reject,
}

/// A filter's answer for one note.
#[derive(Clone, Debug)]
pub struct OutputMessage {
    pub id: String,
    pub action: Action,
    pub msg: Option<String>,
}

/// An answer as plain values: the note's id, the action, and the reason
/// given, if any.
pub struct Decision {
    pub id: Seq<char>,
    pub action: Action,
    pub msg: Option<Seq<char>>,
}

impl View for OutputMessage {
    type V = Decision;

    open spec fn view(&self) -> Decision {
        Decision {
            id: self.id@,
            action: self.action,
            msg: match self.msg {
                Some(m) => Some(m@),
                None => None,
            },
        }
    }
}

impl OutputMessage {
    pub fn new(id: String, action: Action, msg: Option<String>) -> (r: OutputMessage)
        ensures
            r.id == id,
            r.action == action,
            r.msg == msg,
    {
        OutputMessage { id, action, msg }
    }
}

/// A stage of the filter chain: it answers each note, and has a name.
pub trait NoteFilter {
    /// The answer for `msg`; it carries the id of the note.
    fn filter_note(&mut self, msg: &InputMessage) -> (out: OutputMessage)
        ensures
            out.id@ == msg.event.id@,
    ;

    /// The name under which the stage is registered.
    fn name(&self) -> &'static str;
}

} // verus!
