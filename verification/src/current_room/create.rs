//! Popup that handles room creation: one input for the name of the room
//! to be created.

use vstd::prelude::*;

use crate::event::{spec_key_press, Event, KeyCode};
use crate::input::{spec_edit, Input, InputModel};

verus! {

/// Action of validating the "create room" form: the request to create a
/// room under the typed name (possibly empty).
pub struct CreateRoomAction(pub String);

/// The input of a freshly opened creation popup.
pub open spec fn spec_blank_create() -> InputModel {
    InputModel {
        has_error: false,
        is_active: true,
        is_hidden: false,
        label: Some("Create a new room"@),
        value: Seq::<char>::empty(),
    }
}

/// What one event does to the creation popup, and the requested room name
/// when it was a submission.
pub open spec fn spec_create_step(m: InputModel, event: Event) -> (InputModel, Option<Seq<char>>) {
    match spec_key_press(event) {
        Some(k) => if k.code is Enter {
            (InputModel { value: Seq::<char>::empty(), ..m }, Some(m.value))
        } else {
            (InputModel { value: spec_edit(m.value, event), ..m }, Option::None)
        },
        Option::None => (m, Option::None),
    }
}

/// Popup to create a room.
pub struct CreateRoom {
    /// Input to enter the name of the room to be created
    name: Input,
}

impl View for CreateRoom {
    type V = InputModel;

    closed spec fn view(&self) -> InputModel {
        self.name@
    }
}

impl CreateRoom {
    /// Opens the creation popup with an empty, focused name input.
    pub fn new() -> (r: Self)
        ensures
            r@ == spec_blank_create(),
    {
        let r = CreateRoom {
            name: Input::new().with_active().with_label("Create a new room".to_owned()),
        };
        proof {
            assert(r@ =~= spec_blank_create());
        }
        r
    }

    /// Reacts to one event: a submit hands the typed name out as a creation
    /// request and clears the input; any other key press edits the name.
    pub fn on_event(&mut self, event: Event) -> (r: Option<CreateRoomAction>)
        ensures
            final(self)@ == spec_create_step(old(self)@, event).0,
            r is Some <==> spec_create_step(old(self)@, event).1 is Some,
            r is Some ==> (r->0).0@ == spec_create_step(old(self)@, event).1->0,
    {
        if let Some(key_event) = event.as_key_press_event() {
            if matches!(key_event.code, KeyCode::Enter) {
                return Some(CreateRoomAction(self.name.take_value()));
            }
        }
        self.name.on_event(event);
        None
    }

    /// The name input, for rendering.
    pub fn name(&self) -> (r: &Input)
        ensures
            r@ == self@,
    {
        &self.name
    }
}

} // verus!
