//! Earlier form of the invitation popup, kept for the conversation-style
//! panel: identical acceptance rule under its own name.

use vstd::prelude::*;

use crate::current_room::invited_not_joined::AcceptInvitation;
use crate::event::{spec_key_press, Event};

verus! {

/// Invitation popup to a room.
pub struct InvitationPopup;

impl InvitationPopup {
    /// Accepts the pending invitation exactly when the submit key is
    /// pressed.
    pub fn on_event(&self, event: Event) -> (r: Option<AcceptInvitation>)
        ensures
            r is Some <==> (match spec_key_press(event) {
                Some(k) => k.code is Enter,
                Option::None => false,
            }),
    {
        if let Some(key_event) = event.as_key_press_event() {
            if matches!(key_event.code, crate::event::KeyCode::Enter) {
                return Some(AcceptInvitation);
            }
        }
        None
    }
}

} // verus!
