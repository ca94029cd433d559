//! The events of the entry screen.

use vstd::prelude::*;

verus! {

/// What the entry screen posts.
pub enum MainPageEvent {
    /// Try again. Nothing is done for it yet.
    Retry,
    /// Connect to the server at this address and this port.
    ConnectToServer(String, String),
    /// Leave the application.
    Quit,
}

} // verus!
