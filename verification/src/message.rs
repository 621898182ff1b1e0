//! Messages of a room: plain text bodies together with the resolved
//! display name of their sender.

use vstd::prelude::*;

verus! {

/// Mathematical view of one message: its text and the display name of the
/// member who sent it.
pub struct MessageModel {
    pub body: Seq<char>,
    pub sender: Seq<char>,
}

/// Message from a room.
///
/// A message is immutable once constructed.
#[derive(Debug)]
pub struct DisplayMessage {
    /// Plain text content of the message
    body: String,
    /// Display name of the sender
    sender: String,
}

impl View for DisplayMessage {
    type V = MessageModel;

    closed spec fn view(&self) -> MessageModel {
        MessageModel { body: self.body@, sender: self.sender@ }
    }
}

impl DisplayMessage {
    /// Returns the body of the message.
    pub fn as_body(&self) -> (r: &str)
        ensures
            r@ == self@.body,
    {
        self.body.as_str()
    }

    /// Returns the sender of the message.
    pub fn as_sender(&self) -> (r: &str)
        ensures
            r@ == self@.sender,
    {
        self.sender.as_str()
    }

    /// Builds a message from its text and the sender's display name.
    pub fn new(body: String, sender: String) -> (r: Self)
        ensures
            r@ == (MessageModel { body: body@, sender: sender@ }),
    {
        DisplayMessage { body, sender }
    }

    /// Assembles a message from what a raw room event yields: an optional
    /// plain-text body, and the sender's display name when the member could
    /// be resolved. The event becomes a message exactly when both parts are
    /// present; anything else (a reaction, a rule, an unknown member) is
    /// dropped.
    pub fn from_parts(body: Option<String>, sender_name: Option<String>) -> (r: Option<Self>)
        ensures
            r is Some <==> (body is Some && sender_name is Some),
            r is Some ==> r->0@ == (MessageModel {
                body: body->0@,
                sender: sender_name->0@,
            }),
    {
        match (body, sender_name) {
            (Some(b), Some(s)) => Some(DisplayMessage { body: b, sender: s }),
            _ => None,
        }
    }
}

} // verus!
