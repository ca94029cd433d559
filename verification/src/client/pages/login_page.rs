//! The events of the login screen.

use vstd::prelude::*;

verus! {

/// What the login screen posts.
pub enum LoginPageEvent {
    /// Log in with this username and this password.
    Login(String, String),
    /// Leave the application.
    Quit,
    /// Show the signup screen instead.
    GoToSignup,
}

} // verus!
