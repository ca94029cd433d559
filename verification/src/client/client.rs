//! The actor that owns the connection: what it does for each command.
//!
//! It takes commands, makes the network call that a command asks for, and
//! reports how the call went. The calls themselves are made by the program
//! around the library; the steps here say which call to make and what to
//! report.

use crate::client::session::{Session, SessionError};
use crate::text::join3;
use vstd::prelude::*;
use vstd::string::*;

verus! {

/// What travels between the actor that owns the connection and the rest of
/// the client: commands to it, and its reports.
pub enum ClientMessage {
    /// Stop.
    Terminate,
    /// Command: connect to the server at this address and this port.
    ConnectToServer(String, String),
    /// Command: log in with this username and this password.
    Login(String, String),
    /// Command: sign up with this name, this username and this password.
    Signup(String, String, String),
    /// Report: a call failed, for this reason.
    Failed(String),
    /// Report: the connection stands.
    ConnectedToServer,
    /// Report: the user has logged in.
    LoginSuccess,
}

/// The actor that owns the connection.
pub struct Client {
    /// The session with the server, once a connection stands.
    pub session: Option<Session>,
}

/// What the actor does for a message.
pub enum Command {
    /// Hand this message on, then stop.
    Stop(ClientMessage),
    /// Connect to this address, then hand the outcome to [`Client::connect`]
    /// and report what it gives.
    Connect(String),
    /// Log in with this username and this password over the session, then
    /// hand the outcome to [`Client::logged_in`] and report what it gives.
    Login(String, String),
    /// Report this.
    Report(ClientMessage),
    /// Nothing.
    Ignore,
}

/// The address to connect to for a host and a port.
pub open spec fn address(addr: Seq<char>, port: Seq<char>) -> Seq<char> {
    addr + ":"@ + port
}

impl Command {
    /// Whether this is what is done for a message, with or without a session.
    /// A command to stop is handed on and obeyed. A command to connect is
    /// answered by connecting. A command to log in is answered by logging in
    /// where there is a session, and by a report that there is none where
    /// there is not. Nothing is done for any other message.
    pub open spec fn answers(self, message: ClientMessage, connected: bool) -> bool {
        match message {
            ClientMessage::Terminate => self == Command::Stop(ClientMessage::Terminate),
            ClientMessage::ConnectToServer(addr, port) => self matches Command::Connect(to)
                && to@ == address(addr@, port@),
            ClientMessage::Login(user, pass) => if connected {
                self == Command::Login(user, pass)
            } else {
                self matches Command::Report(ClientMessage::Failed(words)) && words@
                    == "Session Not Created"@
            },
            _ => self == Command::Ignore,
        }
    }
}

impl Client {
    /// The actor before any connection.
    pub fn new() -> (client: Self)
        ensures
            client.session is None,
    {
        Client { session: None }
    }

    /// What the actor does for a message.
    pub fn manage_channel(&self, message: ClientMessage) -> (command: Command)
        ensures
            command.answers(message, self.session is Some),
    {
        match message {
            ClientMessage::Terminate => Command::Stop(ClientMessage::Terminate),
            ClientMessage::ConnectToServer(addr, port) => Command::Connect(
                join3(addr.as_str(), ":", port.as_str()),
            ),
            ClientMessage::Login(user, pass) => match &self.session {
                Some(_) => Command::Login(user, pass),
                None => Command::Report(
                    ClientMessage::Failed(String::from_str("Session Not Created")),
                ),
            },
            _ => Command::Ignore,
        }
    }

    /// Takes in the outcome of connecting and gives the report. A connection
    /// that stands gets a new session, which replaces the one before; one that
    /// failed, with the words of the failure, changes nothing.
    pub fn connect(&mut self, outcome: Result<(), String>) -> (report: ClientMessage)
        ensures
            match outcome {
                Ok(_) => report == ClientMessage::ConnectedToServer && final(self).session is Some
                    && final(self).session->Some_0.is_new(),
                Err(words) => report == ClientMessage::Failed(words) && final(self).session == old(
                    self,
                ).session,
            },
    {
        match outcome {
            Ok(_) => {
                self.session = Some(Session::new());
                ClientMessage::ConnectedToServer
            },
            Err(words) => ClientMessage::Failed(words),
        }
    }

    /// The report for the outcome of logging in.
    pub fn logged_in(outcome: Result<(), SessionError>) -> (report: ClientMessage)
        ensures
            report == (match outcome {
                Ok(_) => ClientMessage::LoginSuccess,
                Err(error) => ClientMessage::Failed(error.message),
            }),
    {
        match outcome {
            Ok(_) => ClientMessage::LoginSuccess,
            Err(error) => ClientMessage::Failed(error.message),
        }
    }
}

} // verus!
