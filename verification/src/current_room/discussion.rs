//! The discussion panel: the open room's message history above a prompt
//! for writing messages, with an inline error for a failed send. The
//! history itself is read from the cache at drawing time; this component
//! keeps the room's key, the prompt and the error.

use vstd::prelude::*;

use crate::event::{spec_key_press, Event, KeyCode};
use crate::input::{spec_edit, Input, InputModel};
use crate::room::DisplayRoom;
use crate::text::str_eq;

verus! {

/// Mathematical view of a discussion panel.
#[verifier::ext_equal]
pub struct DiscussionModel {
    pub error: Option<Seq<char>>,
    pub prompt: InputModel,
    pub room_id: Seq<char>,
}

/// The message prompt of a freshly opened discussion.
pub open spec fn spec_blank_prompt() -> InputModel {
    InputModel {
        has_error: false,
        is_active: true,
        is_hidden: false,
        label: Option::None,
        value: Seq::<char>::empty(),
    }
}

/// What one event does to the discussion, and the message body handed out
/// when it was a send. A send clears the prompt and dismisses the inline
/// error of any earlier failed send: the new attempt starts clean.
pub open spec fn spec_discussion_step(m: DiscussionModel, event: Event) -> (
    DiscussionModel,
    Option<Seq<char>>,
) {
    match spec_key_press(event) {
        Some(k) => if k.code is Enter {
            (
                DiscussionModel {
                    error: Option::None,
                    prompt: InputModel { value: Seq::<char>::empty(), ..m.prompt },
                    ..m
                },
                Some(m.prompt.value),
            )
        } else {
            (
                DiscussionModel {
                    prompt: InputModel { value: spec_edit(m.prompt.value, event), ..m.prompt },
                    ..m
                },
                Option::None,
            )
        },
        Option::None => (m, Option::None),
    }
}

/// Discussion panel for one room.
pub struct Discussion {
    /// Error of the last failed send, shown inline until the next attempt
    error: Option<String>,
    /// Prompt to write the messages into
    message_prompt: Input,
    /// Key of the room being displayed
    room_id: String,
}

impl View for Discussion {
    type V = DiscussionModel;

    closed spec fn view(&self) -> DiscussionModel {
        DiscussionModel {
            error: match self.error {
                Some(ref e) => Some(e@),
                None => Option::None,
            },
            prompt: self.message_prompt@,
            room_id: self.room_id@,
        }
    }
}

impl Discussion {
    /// Opens a new discussion for the room with the given key.
    pub fn new(room_id: String) -> (r: Self)
        ensures
            r@ == (DiscussionModel {
                error: Option::None,
                prompt: spec_blank_prompt(),
                room_id: room_id@,
            }),
    {
        let r = Discussion { error: None, message_prompt: Input::new().with_active(), room_id };
        proof {
            assert(r@ =~= (DiscussionModel {
                error: Option::None,
                prompt: spec_blank_prompt(),
                room_id: r.room_id@,
            }));
        }
        r
    }

    /// Consumes the panel and returns the key of its room.
    pub fn into_room(self) -> (r: String)
        ensures
            r@ == self@.room_id,
    {
        self.room_id
    }

    /// The key of the room being displayed.
    pub fn room_id(&self) -> (r: &String)
        ensures
            r@ == self@.room_id,
    {
        &self.room_id
    }

    /// The message prompt, for rendering.
    pub fn message_prompt(&self) -> (r: &Input)
        ensures
            r@ == self@.prompt,
    {
        &self.message_prompt
    }

    /// The error of the last failed send, if it is still displayed.
    pub fn error(&self) -> (r: Option<&String>)
        ensures
            r is Some <==> self@.error is Some,
            r is Some ==> r->0@ == self@.error->0,
    {
        match &self.error {
            Some(e) => Some(e),
            None => None,
        }
    }

    /// Records the error of a failed send, to be shown inline; the prompt
    /// stays editable for a retry.
    pub fn set_error(&mut self, error: String)
        ensures
            final(self)@ == (DiscussionModel { error: Some(error@), ..old(self)@ }),
    {
        self.error = Some(error);
        proof {
            assert(self@ =~= (DiscussionModel { error: Some(error@), ..old(self)@ }));
        }
    }

    /// Checks if this panel shows the provided room, by key.
    pub fn room_is(&self, other: &DisplayRoom) -> (r: bool)
        ensures
            r == (self@.room_id == other@.id),
    {
        str_eq(self.room_id.as_str(), other.id().as_str())
    }

    /// Reacts to one event: a send hands the typed body out, clears the
    /// prompt and dismisses any earlier send error; any other key press
    /// edits the prompt.
    pub fn on_event(&mut self, event: Event) -> (r: Option<String>)
        ensures
            final(self)@ == spec_discussion_step(old(self)@, event).0,
            r is Some <==> spec_discussion_step(old(self)@, event).1 is Some,
            r is Some ==> r->0@ == spec_discussion_step(old(self)@, event).1->0,
    {
        if let Some(key_event) = event.as_key_press_event() {
            if matches!(key_event.code, KeyCode::Enter) {
                self.error = None;
                let body = self.message_prompt.take_value();
                proof {
                    assert(self@ =~= spec_discussion_step(old(self)@, event).0);
                }
                return Some(body);
            }
        }
        self.message_prompt.on_event(event);
        proof {
            assert(self@ =~= spec_discussion_step(old(self)@, event).0);
        }
        None
    }
}

} // verus!
