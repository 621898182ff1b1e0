//! Popup shown for a room the user has not joined yet but holds a pending
//! invitation to: one key press accepts it.

use vstd::prelude::*;

use crate::event::{spec_key_press, Event};

verus! {

/// Represents the action of accepting an invitation.
pub struct AcceptInvitation;

/// Invitation popup to a room.
pub struct InvitationToRoomPopup;

impl InvitationToRoomPopup {
    /// Accepts the pending invitation exactly when the submit key is
    /// pressed.
    pub fn on_event(&self, event: Event) -> (r: Option<AcceptInvitation>)
        ensures
            r is Some <==> (match spec_key_press(event) {
                Some(k) => k.code is Enter,
                Option::None => false,
            }),
    {
        if let Some(key_event) = event.as_key_press_event() {
            if matches!(key_event.code, crate::event::KeyCode::Enter) {
                return Some(AcceptInvitation);
            }
        }
        None
    }
}

} // verus!
