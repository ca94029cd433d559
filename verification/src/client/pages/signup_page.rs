//! The events of the signup screen.

use vstd::prelude::*;

verus! {

/// What the signup screen posts.
pub enum SignupPageEvent {
    /// Sign up with this name, this username and this password.
    Signup(String, String, String),
    /// Leave the application.
    Quit,
    /// Show the login screen instead.
    GoToLogin,
}

} // verus!
