//! The window of the appliance and what it shows when.

use crate::ui_state_controller::Screen;
use vstd::prelude::*;

pub mod window;

verus! {

/// What the window is told when the connection to the internet was looked
/// at.
#[derive(Debug, Clone, Copy, PartialEq, Eq, Structural)]
pub enum Transition {
    /// Show the home view.
    ShowHome,
    /// Show the loading view and fetch the helper programs.
    Initialize,
    /// Show the view that waits for a network.
    ShowWaiting,
    /// Leave the window as it is.
    Stay,
}

/// The view that the window opens with.
pub open spec fn initial_view(is_connected: bool) -> Screen {
    if is_connected {
        Screen::Loading
    } else {
        Screen::WaitingForWifi
    }
}

/// What follows when the connection is looked at again. A connection that
/// came up leads home, by way of fetching the helper programs if they are
/// not there; without a connection the window waits for one.
pub open spec fn transition(is_connected: bool, was_connected: bool, initialized: bool) -> Transition {
    if is_connected && !was_connected {
        if initialized {
            Transition::ShowHome
        } else {
            Transition::Initialize
        }
    } else if !is_connected {
        Transition::ShowWaiting
    } else {
        Transition::Stay
    }
}

/// The address that the window opens with.
pub fn get_initial_url(is_connected: bool) -> (r: &'static str)
    ensures
        r@ == initial_view(is_connected).address(),
{
    if is_connected {
        "http://localhost:8000/goldie?view=loading"
    } else {
        "http://localhost:8000/goldie?view=waiting-for-wifi"
    }
}

/// What follows when the connection is looked at again.
pub fn start_connectivity_monitoring(is_connected: bool, was_connected: bool, initialized: bool) -> (r:
    Transition)
    ensures
        r == transition(is_connected, was_connected, initialized),
{
    if is_connected && !was_connected {
        if initialized {
            Transition::ShowHome
        } else {
            Transition::Initialize
        }
    } else if !is_connected {
        Transition::ShowWaiting
    } else {
        Transition::Stay
    }
}

} // verus!
