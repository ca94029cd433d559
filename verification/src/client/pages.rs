//! The events of each screen.

pub mod login_page;
pub mod main_page;
pub mod signup_page;
