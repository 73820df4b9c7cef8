//! Who is told of a notification.

use crate::wpa_events::event::{WpaEvent, WpaEventView};
use vstd::prelude::*;

verus! {

/// Something that reacts to the notifications of the supplicant.
///
/// A handler does nothing itself: it says what is to follow from a
/// notification, as a value of its own choosing, and what it says depends on
/// nothing but the handler and the notification.
pub trait WpaEventHandler {
    /// What is to follow from a notification.
    type Reaction;

    /// What this handler makes of a notification. A handler that does not
    /// say leaves it open.
    open spec fn reaction(&self, event: WpaEventView) -> Self::Reaction {
        arbitrary()
    }

    /// Says what is to follow from `event`.
    fn handle_event(&self, event: WpaEvent) -> (r: Self::Reaction)
        ensures
            r == self.reaction(event@),
    ;
}

} // verus!
