//! Popup to invite a member to the current room: one input for the name
//! of the person to add, and an inline error for a failed invitation.

use vstd::prelude::*;

use crate::event::{spec_key_press, Event, KeyCode};
use crate::input::{spec_edit, Input, InputModel};

verus! {

/// Mathematical view of the invitation popup.
#[verifier::ext_equal]
pub struct InviteMemberModel {
    pub error: Option<Seq<char>>,
    pub person: InputModel,
    pub room_id: Seq<char>,
}

/// The person input of a freshly opened invitation popup.
pub open spec fn spec_blank_person() -> InputModel {
    InputModel {
        has_error: false,
        is_active: true,
        is_hidden: false,
        label: Some("Name of the person to add"@),
        value: Seq::<char>::empty(),
    }
}

/// What one event does to the invitation popup, and the person handed out
/// when it was a submission. The submitting key press is also offered to
/// the input afterwards, which ignores it.
pub open spec fn spec_invite_step(m: InviteMemberModel, event: Event) -> (
    InviteMemberModel,
    Option<Seq<char>>,
) {
    match spec_key_press(event) {
        Some(k) => if k.code is Enter {
            (
                InviteMemberModel { person: InputModel { value: Seq::<char>::empty(), ..m.person }, ..m },
                Some(m.person.value),
            )
        } else {
            (
                InviteMemberModel {
                    person: InputModel { value: spec_edit(m.person.value, event), ..m.person },
                    ..m
                },
                Option::None,
            )
        },
        Option::None => (m, Option::None),
    }
}

/// Popup widget to invite a member to the current room.
pub struct InviteMemberPopup {
    /// Invitation error, if one occurred
    error: Option<String>,
    /// Name of the person to add to the current room
    person: Input,
    /// Key of the room to which people are to be added
    room_id: String,
}

impl View for InviteMemberPopup {
    type V = InviteMemberModel;

    closed spec fn view(&self) -> InviteMemberModel {
        InviteMemberModel {
            error: match self.error {
                Some(ref e) => Some(e@),
                None => Option::None,
            },
            person: self.person@,
            room_id: self.room_id@,
        }
    }
}

impl InviteMemberPopup {
    /// Opens the invitation popup for the room with the given key.
    pub fn new(room_id: String) -> (r: Self)
        ensures
            r@ == (InviteMemberModel {
                error: Option::None,
                person: spec_blank_person(),
                room_id: room_id@,
            }),
    {
        let r = InviteMemberPopup {
            error: None,
            person: Input::new().with_active().with_label("Name of the person to add".to_owned()),
            room_id,
        };
        proof {
            assert(r@ =~= (InviteMemberModel {
                error: Option::None,
                person: spec_blank_person(),
                room_id: r.room_id@,
            }));
        }
        r
    }

    /// Consumes the popup and returns the key of its room.
    pub fn into_room(self) -> (r: String)
        ensures
            r@ == self@.room_id,
    {
        self.room_id
    }

    /// The key of the room to invite into.
    pub fn room_id(&self) -> (r: &String)
        ensures
            r@ == self@.room_id,
    {
        &self.room_id
    }

    /// The person input, for rendering.
    pub fn person(&self) -> (r: &Input)
        ensures
            r@ == self@.person,
    {
        &self.person
    }

    /// The invitation error, if one occurred.
    pub fn error(&self) -> (r: Option<&String>)
        ensures
            r is Some <==> self@.error is Some,
            r is Some ==> r->0@ == self@.error->0,
    {
        match &self.error {
            Some(e) => Some(e),
            None => None,
        }
    }

    /// Records the error of a failed invitation, to be shown inline; the
    /// input stays editable for a retry.
    pub fn set_error(&mut self, error: String)
        ensures
            final(self)@ == (InviteMemberModel { error: Some(error@), ..old(self)@ }),
    {
        self.error = Some(error);
        proof {
            assert(self@ =~= (InviteMemberModel { error: Some(error@), ..old(self)@ }));
        }
    }

    /// Reacts to one event: a submit hands the typed person out (to be
    /// invited by the caller) and clears the input; any other key press
    /// edits the input.
    pub fn on_event(&mut self, event: Event) -> (r: Option<String>)
        ensures
            final(self)@ == spec_invite_step(old(self)@, event).0,
            r is Some <==> spec_invite_step(old(self)@, event).1 is Some,
            r is Some ==> r->0@ == spec_invite_step(old(self)@, event).1->0,
    {
        let mut submitted: Option<String> = None;
        if let Some(key_event) = event.as_key_press_event() {
            if matches!(key_event.code, KeyCode::Enter) {
                submitted = Some(self.person.take_value());
            }
        }
        self.person.on_event(event);
        proof {
            assert(self@ =~= spec_invite_step(old(self)@, event).0);
        }
        submitted
    }
}

} // verus!
