//! What the server answers to a packet.
//!
//! A connection carries one request and one answer. The request's kind picks
//! the handler; a handler that needs the store says so, and is told what the
//! store answered before it gives the reply.

use crate::kind::PacketType;
use crate::models::{Empty, Group, Member, Message, User, UserView, E2E};
use crate::packet::{body_read, DataPacket, DataPacketView, Packet};
use crate::server::database::StoreError;
use vstd::prelude::*;
use vstd::string::*;

verus! {

/// The server's side of one connection.
pub struct Client {
    /// The user that has logged in on this connection, if one has.
    pub me: Option<User>,
}

/// What a connection does after a request was looked at.
pub enum Action {
    /// Send this packet; the request is done.
    Reply(DataPacket),
    /// Ask the store for the user under this key, then hand the answer to
    /// [`Client::login_user`].
    GetUser(String),
    /// Ask the store to keep this user, then hand the answer to
    /// [`Client::register_user`].
    CreateUser(User),
    /// The request is well-formed, and nothing handles its kind yet: the
    /// connection cannot go on.
    Unimplemented,
}

/// An [`Action`] as contracts speak of it.
pub ghost enum ActionView {
    Reply(DataPacketView),
    GetUser(Seq<char>),
    CreateUser(UserView),
    Unimplemented,
}

impl View for Action {
    type V = ActionView;

    open spec fn view(&self) -> ActionView {
        match self {
            Action::Reply(packet) => ActionView::Reply(packet@),
            Action::GetUser(key) => ActionView::GetUser(key@),
            Action::CreateUser(user) => ActionView::CreateUser(user@),
            Action::Unimplemented => ActionView::Unimplemented,
        }
    }
}

/// The reply that refuses a request, with the words of the refusal.
pub open spec fn refusal(words: Seq<char>) -> ActionView {
    ActionView::Reply(DataPacketView { p_type: PacketType::Error, data: words })
}

/// The reply that confirms a request, with the words of the confirmation.
pub open spec fn confirmation(words: Seq<char>) -> DataPacketView {
    DataPacketView { p_type: PacketType::Okay, data: words }
}

/// What is done for a request whose kind nothing handles yet: the body is
/// read as the type that the kind calls for, and a body that is none is
/// refused with the words given.
pub open spec fn unhandled<T: crate::packet::Body>(
    packet: DataPacketView,
    words: Seq<char>,
) -> ActionView {
    match body_read::<T>(packet.data) {
        Ok(_) => ActionView::Unimplemented,
        Err(_) => refusal(words),
    }
}

/// What is done for a request.
pub open spec fn routed(packet: DataPacketView) -> ActionView {
    match packet.p_type {
        PacketType::Login => match body_read::<User>(packet.data) {
            Ok(user) => ActionView::GetUser(user.username),
            Err(_) => refusal("Packet Type Error Login"@),
        },
        PacketType::Register => match body_read::<User>(packet.data) {
            Ok(user) => ActionView::CreateUser(user),
            Err(_) => refusal("Packet Type Error Register"@),
        },
        PacketType::Logout => ActionView::Reply(confirmation("Logout Successfully"@)),
        PacketType::E2E => unhandled::<E2E>(packet, "Packet Type Error E2E"@),
        PacketType::CreateGroup => unhandled::<Group>(packet, "Packet Type Error CreateGroup"@),
        PacketType::AddUser => unhandled::<Member>(packet, "Packet Type Error AddUser"@),
        PacketType::CreateMessage => unhandled::<Message>(
            packet,
            "Packet Type Error CreateMessage"@,
        ),
        PacketType::GetMessages => unhandled::<Empty>(packet, "Packet Type Error GetMessages"@),
        PacketType::GetChats => unhandled::<Empty>(packet, "Packet Type Error GetChats"@),
        PacketType::PubKey
        | PacketType::Error
        | PacketType::Empty
        | PacketType::Okay
        | PacketType::Listen
        | PacketType::Refresh => refusal("Packet Type Error"@),
    }
}

/// Who has logged in on a connection after a request was looked at, given who
/// had before: nobody after a logout, and the same as before after any other
/// request.
pub open spec fn logged_in_after(packet: DataPacketView, before: Option<User>) -> Option<User> {
    if packet.p_type == PacketType::Logout {
        None
    } else {
        before
    }
}

/// The reply to a login, given the store's answer: a confirmation where the
/// user was found, else a refusal in the store's words.
pub open spec fn login_reply(answer: Result<User, Seq<char>>) -> DataPacketView {
    match answer {
        Ok(_) => confirmation("Login Successfully"@),
        Err(words) => DataPacketView { p_type: PacketType::Error, data: words },
    }
}

/// The reply to a registration, given the store's answer: a confirmation where
/// the user was kept, else a refusal in the store's words.
pub open spec fn register_reply(answer: Result<(), Seq<char>>) -> DataPacketView {
    match answer {
        Ok(_) => confirmation("User Created Successfully"@),
        Err(words) => DataPacketView { p_type: PacketType::Error, data: words },
    }
}

/// Reads the body of a request whose kind nothing handles yet.
fn unhandled_request<T: crate::packet::Body>(packet: &DataPacket, words: &str) -> (action: Action)
    ensures
        action@ == unhandled::<T>(packet@, words@),
{
    match Packet::<T>::parse(packet, words) {
        Ok(_) => Action::Unimplemented,
        Err(reply) => Action::Reply(reply),
    }
}

impl Client {
    /// The server's side of a new connection: nobody has logged in.
    pub fn new() -> (client: Self)
        ensures
            client.me is None,
    {
        Client { me: None }
    }

    /// Looks at a request and says what the connection does next. A logout
    /// forgets who had logged in; nothing else changes that here.
    pub fn run(&mut self, packet: &DataPacket) -> (action: Action)
        ensures
            action@ == routed(packet@),
            final(self).me == logged_in_after(packet@, old(self).me),
    {
        match packet.get_type() {
            PacketType::E2E => unhandled_request::<E2E>(packet, "Packet Type Error E2E"),
            PacketType::Login => match Packet::<User>::parse(packet, "Packet Type Error Login") {
                Ok(request) => Action::GetUser(request.get().1.get_key()),
                Err(reply) => Action::Reply(reply),
            },
            PacketType::Logout => {
                self.me = None;
                Action::Reply(DataPacket::ok_message(String::from_str("Logout Successfully")))
            },
            PacketType::Register => match Packet::<User>::parse(
                packet,
                "Packet Type Error Register",
            ) {
                Ok(request) => Action::CreateUser(request.get().1),
                Err(reply) => Action::Reply(reply),
            },
            PacketType::CreateGroup => unhandled_request::<Group>(
                packet,
                "Packet Type Error CreateGroup",
            ),
            PacketType::AddUser => unhandled_request::<Member>(packet, "Packet Type Error AddUser"),
            PacketType::CreateMessage => unhandled_request::<Message>(
                packet,
                "Packet Type Error CreateMessage",
            ),
            PacketType::GetMessages => unhandled_request::<Empty>(
                packet,
                "Packet Type Error GetMessages",
            ),
            PacketType::GetChats => unhandled_request::<Empty>(
                packet,
                "Packet Type Error GetChats",
            ),
            _ => Action::Reply(DataPacket::error_message(String::from_str("Packet Type Error"))),
        }
    }

    /// The reply to a registration, given the store's answer.
    pub fn register_user(&self, answer: Result<(), StoreError>) -> (reply: DataPacket)
        ensures
            reply@ == register_reply(
                match answer {
                    Ok(_) => Ok(()),
                    Err(error) => Err(error.message@),
                },
            ),
    {
        match answer {
            Ok(()) => DataPacket::ok_message(String::from_str("User Created Successfully")),
            Err(error) => DataPacket::error_message(error.message),
        }
    }

    /// The reply to a login, given the store's answer. The user that the store
    /// found is from now on the one who has logged in on this connection.
    pub fn login_user(&mut self, answer: Result<User, StoreError>) -> (reply: DataPacket)
        ensures
            reply@ == login_reply(
                match answer {
                    Ok(user) => Ok(user),
                    Err(error) => Err(error.message@),
                },
            ),
            final(self).me == (match answer {
                Ok(user) => Some(user),
                Err(_) => old(self).me,
            }),
    {
        match answer {
            Ok(user) => {
                self.me = Some(user);
                DataPacket::ok_message(String::from_str("Login Successfully"))
            },
            Err(error) => DataPacket::error_message(error.message),
        }
    }
}

/// A login for a key under which nothing is stored is refused with the words
/// "User Not Found"; a login for a key under which a user is stored is
/// confirmed; a registration that the store accepted is confirmed.
pub proof fn lemma_store_answers(hash: Map<u8, String>)
    ensures
        hash.is_empty() ==> login_reply(crate::server::database::user_found(hash))
            == (DataPacketView { p_type: PacketType::Error, data: "User Not Found"@ }),
        !hash.is_empty() ==> login_reply(crate::server::database::user_found(hash)).p_type
            == PacketType::Okay,
        register_reply(Ok(())).p_type == PacketType::Okay,
{
}

/// A logout is confirmed, whatever its body and whoever had logged in, and
/// nobody has logged in after it.
pub proof fn lemma_logout_is_confirmed(packet: DataPacketView, before: Option<User>)
    requires
        packet.p_type == PacketType::Logout,
    ensures
        routed(packet) == ActionView::Reply(confirmation("Logout Successfully"@)),
        logged_in_after(packet, before) is None,
{
}

/// A login whose body is no user is refused with the words "Packet Type
/// Error Login", and a registration likewise with its own words. The store is
/// asked only for what a well-formed body holds.
pub proof fn lemma_malformed_body_is_refused(packet: DataPacketView)
    ensures
        packet.p_type == PacketType::Login && body_read::<User>(packet.data) is Err ==> routed(
            packet,
        ) == refusal("Packet Type Error Login"@),
        packet.p_type == PacketType::Register && body_read::<User>(packet.data) is Err ==> routed(
            packet,
        ) == refusal("Packet Type Error Register"@),
        routed(packet) matches ActionView::GetUser(key) ==> packet.p_type == PacketType::Login
            && body_read::<User>(packet.data) is Ok && body_read::<User>(
            packet.data,
        )->Ok_0.username == key,
        routed(packet) matches ActionView::CreateUser(user) ==> packet.p_type
            == PacketType::Register && body_read::<User>(packet.data) == Ok::<UserView, Seq<char>>(
            user,
        ),
{
}

} // verus!
