//! The client's session with a server, and the login handshake.
//!
//! The handshake is one request and one answer. The program around the
//! library moves the packets; the steps here say what to send and what the
//! answer means.

use crate::kind::PacketType;
use crate::models::{Group, Message, User, UserView};
use crate::packet::{
    body_read, packet_error_shown, DataPacket, DataPacketView, Packet, PacketError,
};
use crate::text::join3;
use vstd::prelude::*;
use vstd::string::*;

verus! {

/// What the client knows while it is connected: who has logged in, and the
/// groups and messages it has seen.
pub struct Session {
    pub me: Option<User>,
    pub groups: Vec<Group>,
    pub messages: Vec<Message>,
}

/// Why a step of the session failed.
#[derive(Debug)]
pub struct SessionError {
    pub message: String,
}

impl SessionError {
    /// The error as one line of text.
    pub fn to_string(&self) -> (text: String)
        ensures
            text@ == packet_error_shown(self.message@),
    {
        join3("{ PackerError: ", self.message.as_str(), " }")
    }

    /// The failure of a session for a packet that could not be sent or
    /// received: its message is the packet error as one line of text.
    pub fn of_packet_error(error: &PacketError) -> (failure: SessionError)
        ensures
            failure.message@ == packet_error_shown(error.message@),
    {
        SessionError { message: error.to_string() }
    }
}

/// What the handshake does after the answer was looked at.
pub enum LoginStep {
    /// The user has logged in.
    Done,
    /// The login failed, for this reason.
    Failed(SessionError),
    /// The answer was no user. Send this packet back to the peer, then hand
    /// the outcome of sending to [`Session::rejected`] for the reason of the
    /// failure.
    Reject(DataPacket),
}

/// A [`LoginStep`] as contracts speak of it.
pub ghost enum LoginStepView {
    Done,
    Failed(Seq<char>),
    Reject(DataPacketView),
}

impl View for LoginStep {
    type V = LoginStepView;

    open spec fn view(&self) -> LoginStepView {
        match self {
            LoginStep::Done => LoginStepView::Done,
            LoginStep::Failed(error) => LoginStepView::Failed(error.message@),
            LoginStep::Reject(packet) => LoginStepView::Reject(packet@),
        }
    }
}

/// What the answer to a login means: a packet that did not arrive, or one of
/// kind `Error`, is a failure, in the words of the error or of the packet; any
/// other packet has to hold the user, and one that does not is sent back as
/// wrong.
pub open spec fn login_step(answer: Result<DataPacketView, Seq<char>>) -> LoginStepView {
    match answer {
        Err(words) => LoginStepView::Failed(packet_error_shown(words)),
        Ok(packet) => if packet.p_type == PacketType::Error {
            LoginStepView::Failed(packet.data)
        } else {
            match body_read::<User>(packet.data) {
                Ok(_) => LoginStepView::Done,
                Err(_) => LoginStepView::Reject(
                    DataPacketView { p_type: PacketType::Error, data: "Wrong Packet Received"@ },
                ),
            }
        },
    }
}

/// Who has logged in after the answer to a login, given who had before: the
/// user that the answer holds, where it holds one and is not of kind `Error`.
pub open spec fn login_identity(
    answer: Result<DataPacketView, Seq<char>>,
    before: Option<UserView>,
) -> Option<UserView> {
    match answer {
        Ok(packet) => if packet.p_type != PacketType::Error {
            match body_read::<User>(packet.data) {
                Ok(user) => Some(user),
                Err(_) => before,
            }
        } else {
            before
        },
        Err(_) => before,
    }
}

/// An answer as contracts speak of it.
pub open spec fn answer_view(answer: Result<DataPacket, PacketError>) -> Result<
    DataPacketView,
    Seq<char>,
> {
    match answer {
        Ok(packet) => Ok(packet@),
        Err(error) => Err(error.message@),
    }
}

/// A user that may be there, as contracts speak of it.
pub open spec fn identity_view(me: Option<User>) -> Option<UserView> {
    match me {
        Some(user) => Some(user@),
        None => None,
    }
}

impl Session {
    /// Whether this is the session of a new connection: nobody has logged in,
    /// and nothing has been seen.
    pub open spec fn is_new(&self) -> bool {
        self.me is None && self.groups@.len() == 0 && self.messages@.len() == 0
    }

    /// The session of a new connection.
    pub fn new() -> (session: Self)
        ensures
            session.is_new(),
    {
        Self { me: None, groups: Vec::new(), messages: Vec::new() }
    }

    /// The packet that asks to log in: kind `Login`, and as body a user with
    /// this username, this password and an empty name.
    pub fn login_request(user: String, pass: String) -> (r: Result<DataPacket, SessionError>)
        ensures
            match r {
                Ok(packet) => Packet::<User>::wire(
                    PacketType::Login,
                    UserView { name: Seq::empty(), username: user@, password: pass@ },
                ) == Some(packet@),
                Err(error) => Packet::<User>::wire(
                    PacketType::Login,
                    UserView { name: Seq::empty(), username: user@, password: pass@ },
                ) is None && error.message@ == "body does not read back"@,
            },
    {
        let body = User::simple(user, pass);
        let packet = Packet::new(PacketType::Login, body);
        match packet.to() {
            Ok(data) => Ok(data),
            Err(error) => Err(SessionError { message: error.message }),
        }
    }

    /// Takes in the answer to a login, or the reason none arrived, and says
    /// what the handshake does next. Where the answer holds the user, that user
    /// has logged in from now on.
    pub fn login(&mut self, answer: Result<DataPacket, PacketError>) -> (step: LoginStep)
        ensures
            step@ == login_step(answer_view(answer)),
            identity_view(final(self).me) == login_identity(
                answer_view(answer),
                identity_view(old(self).me),
            ),
            final(self).groups == old(self).groups,
            final(self).messages == old(self).messages,
    {
        let data_packet = match answer {
            Ok(packet) => packet,
            Err(error) => return LoginStep::Failed(SessionError::of_packet_error(&error)),
        };
        if data_packet.get_type() == PacketType::Error {
            return LoginStep::Failed(SessionError { message: data_packet.get_data() });
        }
        match Packet::<User>::parse(&data_packet, "Wrong Packet Received") {
            Ok(packet) => {
                self.me = Some(packet.get().1);
                LoginStep::Done
            },
            Err(reply) => LoginStep::Reject(reply),
        }
    }

    /// The reason of the failure after a wrong answer was sent back: that a
    /// wrong packet was received, or, where sending back failed too, the
    /// reason of that.
    pub fn rejected(sent: Result<(), PacketError>) -> (failure: SessionError)
        ensures
            failure.message@ == (match sent {
                Ok(_) => "Wrong Packet Received"@,
                Err(error) => packet_error_shown(error.message@),
            }),
    {
        match sent {
            Ok(_) => SessionError { message: String::from_str("Wrong Packet Received") },
            Err(error) => SessionError::of_packet_error(&error),
        }
    }
}

} // verus!
