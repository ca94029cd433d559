//! What screens post to the actor that routes their events.

use crate::client::pages::login_page::LoginPageEvent;
use crate::client::pages::main_page::MainPageEvent;
use crate::client::pages::signup_page::SignupPageEvent;
use vstd::prelude::*;

verus! {

/// An event that any screen may post.
pub enum PageEvent {
    /// The application is closing.
    Terminate,
}

/// What travels on the channel from the screens to the router: an event of
/// one of the screens, or of none that the router knows.
pub enum PageMessage {
    Page(PageEvent),
    Main(MainPageEvent),
    Login(LoginPageEvent),
    Signup(SignupPageEvent),
    /// An event of a type that the router does not know.
    Unknown,
}

} // verus!
