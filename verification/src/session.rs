//! A session: one conversation's identity and its ordered, append-only
//! message history.

use vstd::prelude::*;
use vstd::string::StringExecFns;
use crate::provider::{Message, MessageModel, msgs_model};

verus! {

/// The durable state of one conversation.
#[derive(Clone, Debug, PartialEq)]
pub struct Session {
    session_id: String,
    messages: Vec<Message>,
    time_stamp: String,
}

/// Model of a session.
pub struct SessionModel {
    pub session_id: Seq<char>,
    pub messages: Seq<MessageModel>,
    pub time_stamp: Seq<char>,
}

impl View for Session {
    type V = SessionModel;

    closed spec fn view(&self) -> SessionModel {
        SessionModel {
            session_id: self.session_id@,
            messages: msgs_model(self.messages@),
            time_stamp: self.time_stamp@,
        }
    }
}

/// The timestamp every fresh session is stamped with.
pub open spec fn fresh_time_stamp() -> Seq<char> {
    "2025-11-19T00:00:00Z"@
}

impl Session {
    /// A fresh session with no messages.
    pub fn new(session_id: String) -> (r: Session)
        ensures
            r@.session_id == session_id@,
            r@.messages == Seq::<MessageModel>::empty(),
            r@.time_stamp == fresh_time_stamp(),
    {
        let r = Session {
            session_id,
            messages: Vec::new(),
            time_stamp: String::from_str("2025-11-19T00:00:00Z"),
        };
        proof {
            assert(r@.messages =~= Seq::<MessageModel>::empty());
        }
        r
    }

    /// Rebuilds a session from its parts; the snapshot codec uses this when
    /// loading.
    pub(crate) fn from_parts(session_id: String, messages: Vec<Message>, time_stamp: String) -> (r: Session)
        ensures
            r@.session_id == session_id@,
            r@.messages == msgs_model(messages@),
            r@.time_stamp == time_stamp@,
    {
        Session { session_id, messages, time_stamp }
    }

    /// Appends one message; the history is append-only.
    pub fn add_message(&mut self, message: Message)
        ensures
            final(self)@.session_id == old(self)@.session_id,
            final(self)@.time_stamp == old(self)@.time_stamp,
            final(self)@.messages == old(self)@.messages.push(message@),
    {
        self.messages.push(message);
        proof {
            assert(msgs_model(self.messages@) =~= msgs_model(old(self).messages@).push(message@));
        }
    }

    /// The ordered message history.
    pub fn get_messages(&self) -> (r: &Vec<Message>)
        ensures
            msgs_model(r@) == self@.messages,
    {
        &self.messages
    }

    /// The session's identity.
    pub fn session_id(&self) -> (r: &String)
        ensures
            r@ == self@.session_id,
    {
        &self.session_id
    }

    /// The session's creation timestamp.
    pub fn time_stamp(&self) -> (r: &String)
        ensures
            r@ == self@.time_stamp,
    {
        &self.time_stamp
    }
}

} // verus!
