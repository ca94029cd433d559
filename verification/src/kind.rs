//! The tag that says what a packet is for.

use crate::text::same_text;
use vstd::prelude::*;

verus! {

/// What a packet is for. The set is closed: a peer that sends any other name
/// has not sent a packet.
#[derive(Clone, Copy, Debug, PartialEq, Eq, Structural)]
pub enum PacketType {
    PubKey,
    Error,
    Empty,
    Okay,
    Refresh,
    E2E,
    Login,
    Logout,
    Register,
    CreateGroup,
    AddUser,
    CreateMessage,
    GetMessages,
    GetChats,
    Listen,
}

/// The name under which a kind travels: the variant's own name, letter for letter.
pub open spec fn kind_name(kind: PacketType) -> Seq<char> {
    match kind {
        PacketType::PubKey => "PubKey"@,
        PacketType::Error => "Error"@,
        PacketType::Empty => "Empty"@,
        PacketType::Okay => "Ok"@,
        PacketType::Refresh => "Refresh"@,
        PacketType::E2E => "E2E"@,
        PacketType::Login => "Login"@,
        PacketType::Logout => "Logout"@,
        PacketType::Register => "Register"@,
        PacketType::CreateGroup => "CreateGroup"@,
        PacketType::AddUser => "AddUser"@,
        PacketType::CreateMessage => "CreateMessage"@,
        PacketType::GetMessages => "GetMessages"@,
        PacketType::GetChats => "GetChats"@,
        PacketType::Listen => "Listen"@,
    }
}

/// The kind that a name stands for, if it is the name of one.
pub open spec fn kind_named(name: Seq<char>) -> Option<PacketType> {
    if exists|kind: PacketType| kind_name(kind) == name {
        Some(choose|kind: PacketType| kind_name(kind) == name)
    } else {
        None
    }
}

/// No two kinds share a name.
pub proof fn lemma_kind_names_differ(a: PacketType, b: PacketType)
    requires
        kind_name(a) == kind_name(b),
    ensures
        a == b,
{
    reveal_strlit("PubKey");
    reveal_strlit("Error");
    reveal_strlit("Empty");
    reveal_strlit("Ok");
    reveal_strlit("Refresh");
    reveal_strlit("E2E");
    reveal_strlit("Login");
    reveal_strlit("Logout");
    reveal_strlit("Register");
    reveal_strlit("CreateGroup");
    reveal_strlit("AddUser");
    reveal_strlit("CreateMessage");
    reveal_strlit("GetMessages");
    reveal_strlit("GetChats");
    reveal_strlit("Listen");
    let n = kind_name(a);
    let m = kind_name(b);
    assert(n.len() == m.len());
    assert(n[0] == m[0]);
    assert(n[1] == m[1]);
    if n.len() > 3 {
        assert(n[3] == m[3]);
    }
}

/// A kind is found again under its own name.
pub proof fn lemma_kind_round_trip(kind: PacketType)
    ensures
        kind_named(kind_name(kind)) == Some(kind),
{
    let found = choose|k: PacketType| kind_name(k) == kind_name(kind);
    lemma_kind_names_differ(found, kind);
}

impl PacketType {
    /// The name under which this kind travels.
    pub fn name(&self) -> (name: &'static str)
        ensures
            name@ == kind_name(*self),
    {
        match self {
            PacketType::PubKey => "PubKey",
            PacketType::Error => "Error",
            PacketType::Empty => "Empty",
            PacketType::Okay => "Ok",
            PacketType::Refresh => "Refresh",
            PacketType::E2E => "E2E",
            PacketType::Login => "Login",
            PacketType::Logout => "Logout",
            PacketType::Register => "Register",
            PacketType::CreateGroup => "CreateGroup",
            PacketType::AddUser => "AddUser",
            PacketType::CreateMessage => "CreateMessage",
            PacketType::GetMessages => "GetMessages",
            PacketType::GetChats => "GetChats",
            PacketType::Listen => "Listen",
        }
    }

    /// The kind that travels under a name, if the name is one of theirs. Names
    /// are matched exactly: case and spelling count.
    pub fn from_name(name: &str) -> (kind: Option<PacketType>)
        ensures
            kind == kind_named(name@),
    {
        if same_text(name, "PubKey") {
            proof {
                lemma_kind_round_trip(PacketType::PubKey);
            }
            return Some(PacketType::PubKey);
        }
        if same_text(name, "Error") {
            proof {
                lemma_kind_round_trip(PacketType::Error);
            }
            return Some(PacketType::Error);
        }
        if same_text(name, "Empty") {
            proof {
                lemma_kind_round_trip(PacketType::Empty);
            }
            return Some(PacketType::Empty);
        }
        if same_text(name, "Ok") {
            proof {
                lemma_kind_round_trip(PacketType::Okay);
            }
            return Some(PacketType::Okay);
        }
        if same_text(name, "Refresh") {
            proof {
                lemma_kind_round_trip(PacketType::Refresh);
            }
            return Some(PacketType::Refresh);
        }
        if same_text(name, "E2E") {
            proof {
                lemma_kind_round_trip(PacketType::E2E);
            }
            return Some(PacketType::E2E);
        }
        if same_text(name, "Login") {
            proof {
                lemma_kind_round_trip(PacketType::Login);
            }
            return Some(PacketType::Login);
        }
        if same_text(name, "Logout") {
            proof {
                lemma_kind_round_trip(PacketType::Logout);
            }
            return Some(PacketType::Logout);
        }
        if same_text(name, "Register") {
            proof {
                lemma_kind_round_trip(PacketType::Register);
            }
            return Some(PacketType::Register);
        }
        if same_text(name, "CreateGroup") {
            proof {
                lemma_kind_round_trip(PacketType::CreateGroup);
            }
            return Some(PacketType::CreateGroup);
        }
        if same_text(name, "AddUser") {
            proof {
                lemma_kind_round_trip(PacketType::AddUser);
            }
            return Some(PacketType::AddUser);
        }
        if same_text(name, "CreateMessage") {
            proof {
                lemma_kind_round_trip(PacketType::CreateMessage);
            }
            return Some(PacketType::CreateMessage);
        }
        if same_text(name, "GetMessages") {
            proof {
                lemma_kind_round_trip(PacketType::GetMessages);
            }
            return Some(PacketType::GetMessages);
        }
        if same_text(name, "GetChats") {
            proof {
                lemma_kind_round_trip(PacketType::GetChats);
            }
            return Some(PacketType::GetChats);
        }
        if same_text(name, "Listen") {
            proof {
                lemma_kind_round_trip(PacketType::Listen);
            }
            return Some(PacketType::Listen);
        }
        assert(forall|kind: PacketType| kind_name(kind) != name@);
        None
    }
}

} // verus!
