//! The terminal client: its session, the actor that owns the connection, and
//! the actor that routes what the screens post and what the connection
//! reports.
//!
//! Only the thread that draws may touch the screens. The routing actors
//! therefore never draw: they say what is to be drawn, and the program around
//! the library hands that to the drawing thread.

pub mod client;
pub mod page;
pub mod pages;
pub mod session;

use crate::client::client::{ClientMessage, Command};
use crate::client::page::{PageEvent, PageMessage};
use crate::client::pages::login_page::LoginPageEvent;
use crate::client::pages::main_page::MainPageEvent;
use crate::client::pages::signup_page::SignupPageEvent;
use vstd::prelude::*;

verus! {

/// What the drawing thread is asked to show.
pub enum Redraw {
    /// The login screen, in place of the one on top.
    LoginPage,
    /// The signup screen, in place of the one on top.
    SignupPage,
    /// A dialog with these words, on top of what is shown, to be
    /// acknowledged.
    Error(String),
}

/// What a routing actor does for a message.
pub enum Step {
    /// Stop.
    Stop,
    /// Send this command to the actor that owns the connection.
    Forward(ClientMessage),
    /// Ask the drawing thread for this.
    Redraw(Redraw),
    /// Nothing.
    Ignore,
}

/// What is done for a report of the actor that owns the connection: a
/// failure is shown, a connection that stands brings up the login screen, and
/// the command to stop is obeyed. Nothing is done for any other message.
pub open spec fn client_step(message: ClientMessage) -> Step {
    match message {
        ClientMessage::Terminate => Step::Stop,
        ClientMessage::Failed(words) => Step::Redraw(Redraw::Error(words)),
        ClientMessage::ConnectedToServer => Step::Redraw(Redraw::LoginPage),
        _ => Step::Ignore,
    }
}

/// What is done for an event of a screen. The event that closes the
/// application, and a screen's own wish to leave, stop the actor. A request
/// to connect, to log in or to sign up goes to the actor that owns the
/// connection. A request for another screen goes to the drawing thread.
/// Nothing is done for any other event.
pub open spec fn page_step(message: PageMessage) -> Step {
    match message {
        PageMessage::Page(PageEvent::Terminate) => Step::Stop,
        PageMessage::Main(MainPageEvent::Quit) => Step::Stop,
        PageMessage::Main(MainPageEvent::ConnectToServer(addr, port)) => Step::Forward(
            ClientMessage::ConnectToServer(addr, port),
        ),
        PageMessage::Main(MainPageEvent::Retry) => Step::Ignore,
        PageMessage::Login(LoginPageEvent::Quit) => Step::Stop,
        PageMessage::Login(LoginPageEvent::Login(user, pass)) => Step::Forward(
            ClientMessage::Login(user, pass),
        ),
        PageMessage::Login(LoginPageEvent::GoToSignup) => Step::Redraw(Redraw::SignupPage),
        PageMessage::Signup(SignupPageEvent::Quit) => Step::Stop,
        PageMessage::Signup(SignupPageEvent::Signup(name, user, pass)) => Step::Forward(
            ClientMessage::Signup(name, user, pass),
        ),
        PageMessage::Signup(SignupPageEvent::GoToLogin) => Step::Redraw(Redraw::LoginPage),
        PageMessage::Unknown => Step::Ignore,
    }
}

/// What the routing actor does for a report of the actor that owns the
/// connection.
pub fn manage_client(message: ClientMessage) -> (step: Step)
    ensures
        step == client_step(message),
{
    match message {
        ClientMessage::Terminate => Step::Stop,
        ClientMessage::Failed(words) => Step::Redraw(Redraw::Error(words)),
        ClientMessage::ConnectedToServer => Step::Redraw(Redraw::LoginPage),
        _ => Step::Ignore,
    }
}

/// What the routing actor does for an event of a screen. The event is read as
/// an event of any screen first, then as one of the entry screen, of the login
/// screen and of the signup screen; what it is read as first decides.
pub fn manage_page(message: PageMessage) -> (step: Step)
    ensures
        step == page_step(message),
{
    match message {
        PageMessage::Page(event) => match event {
            PageEvent::Terminate => Step::Stop,
        },
        PageMessage::Main(event) => match event {
            MainPageEvent::Quit => Step::Stop,
            MainPageEvent::ConnectToServer(addr, port) => Step::Forward(
                ClientMessage::ConnectToServer(addr, port),
            ),
            MainPageEvent::Retry => Step::Ignore,
        },
        PageMessage::Login(event) => match event {
            LoginPageEvent::Quit => Step::Stop,
            LoginPageEvent::Login(user, pass) => Step::Forward(ClientMessage::Login(user, pass)),
            LoginPageEvent::GoToSignup => Step::Redraw(Redraw::SignupPage),
        },
        PageMessage::Signup(event) => match event {
            SignupPageEvent::Quit => Step::Stop,
            SignupPageEvent::Signup(name, user, pass) => Step::Forward(
                ClientMessage::Signup(name, user, pass),
            ),
            SignupPageEvent::GoToLogin => Step::Redraw(Redraw::LoginPage),
        },
        PageMessage::Unknown => Step::Ignore,
    }
}

/// The command to stop stops each actor in one step: the actor that owns the
/// connection hands it on and stops, with or without a session, and each
/// routing actor stops.
pub proof fn lemma_terminate_stops_every_actor(command: Command, connected: bool)
    requires
        command.answers(ClientMessage::Terminate, connected),
    ensures
        command == Command::Stop(ClientMessage::Terminate),
        client_step(ClientMessage::Terminate) == Step::Stop,
        page_step(PageMessage::Page(PageEvent::Terminate)) == Step::Stop,
{
}

} // verus!
