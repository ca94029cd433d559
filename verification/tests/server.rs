use secure_chat::kind::PacketType;
use secure_chat::models::User;
use secure_chat::packet::{Body, DataPacket, Packet};
use secure_chat::server::client::{Action, Client};
use secure_chat::server::database::{create_user, get_user, StoreError};
use secure_chat::server::Config;
use std::collections::HashMap;

fn words(list: &[&str]) -> Vec<String> {
    list.iter().map(|w| String::from(*w)).collect()
}

fn request(kind: PacketType, data: &str) -> DataPacket {
    let mut packet = DataPacket::ok_message(String::from(data));
    packet.p_type = kind;
    packet
}

fn reply_of(action: Action) -> DataPacket {
    match action {
        Action::Reply(packet) => packet,
        _ => panic!("expected a reply"),
    }
}

#[test]
fn config_reads_three_words() {
    let config = Config::new(&words(&["server", "127.0.0.1:7878", "4", "-v"])).ok().expect("ok");
    assert_eq!(config.addr, "127.0.0.1:7878");
    assert_eq!(config.max_workers, 4);
    assert_eq!(config.flags, "-v");
    let config = Config::new(&words(&["server", "a", "+007", "", "more"])).ok().expect("ok");
    assert_eq!(config.max_workers, 7);
    assert_eq!(config.flags, "");
}

#[test]
fn config_names_the_missing_word() {
    assert_eq!(Config::new(&words(&[])).err(), Some("Address not provided"));
    assert_eq!(Config::new(&words(&["server"])).err(), Some("Address not provided"));
    assert_eq!(Config::new(&words(&["server", "a"])).err(), Some("Max Workers not provided"));
    assert_eq!(Config::new(&words(&["server", "a", "2"])).err(), Some("Flags not provided"));
}

#[test]
fn stored_user_is_keyed_by_username() {
    let user = User::full(String::from("Alice"), String::from("alice"), String::from("pw"));
    let (key, fields) = create_user(user);
    assert_eq!(key, "alice");
    assert_eq!(
        fields,
        vec![
            (0, String::from("Alice")),
            (1, String::from("alice")),
            (2, String::from("pw"))
        ]
    );
    let hash: HashMap<u8, String> = fields.into_iter().collect();
    let found = get_user(hash).ok().expect("a user");
    assert_eq!(found.name, "Alice");
    assert_eq!(found.username, "alice");
    assert_eq!(found.password, "pw");
    assert_eq!(found.get_key(), "alice");
}

#[test]
fn empty_hash_is_no_user() {
    let error = get_user(HashMap::new()).err().expect("an error");
    assert_eq!(error.message, "User Not Found");
}

#[test]
fn login_asks_the_store_and_answers() {
    let mut client = Client::new();
    let body = User::simple(String::from("alice"), String::from("secret"));
    let packet = Packet::new(PacketType::Login, body).to().ok().expect("wire");
    match client.run(&packet) {
        Action::GetUser(key) => assert_eq!(key, "alice"),
        _ => panic!("expected a lookup"),
    }
    assert!(client.me.is_none());

    let absent = get_user(HashMap::new());
    let reply = client.login_user(absent);
    assert_eq!(reply.get_type(), PacketType::Error);
    assert_eq!(reply.get_data(), "User Not Found");
    assert!(client.me.is_none());

    let stored = User::full(String::from("Alice"), String::from("alice"), String::from("x"));
    let reply = client.login_user(Ok(stored));
    assert_eq!(reply.get_type(), PacketType::Okay);
    assert_eq!(reply.get_data(), "Login Successfully");
    assert_eq!(client.me.as_ref().map(|u| u.username.as_str()), Some("alice"));
}

#[test]
fn register_asks_the_store_and_answers() {
    let mut client = Client::new();
    let body = User::full(String::from("B"), String::from("bob"), String::from("pw"));
    let packet = Packet::new(PacketType::Register, body).to().ok().expect("wire");
    match client.run(&packet) {
        Action::CreateUser(user) => {
            assert!(user.same(&User::full(
                String::from("B"),
                String::from("bob"),
                String::from("pw")
            )))
        }
        _ => panic!("expected a registration"),
    }
    let reply = client.register_user(Ok(()));
    assert_eq!(reply.get_type(), PacketType::Okay);
    assert_eq!(reply.get_data(), "User Created Successfully");
    let reply =
        client.register_user(Err(StoreError { message: String::from("connection refused") }));
    assert_eq!(reply.get_type(), PacketType::Error);
    assert_eq!(reply.get_data(), "connection refused");
}

#[test]
fn logout_clears_the_session() {
    let mut client = Client::new();
    client.me = Some(User::simple(String::from("alice"), String::from("x")));
    let reply = reply_of(client.run(&request(PacketType::Logout, "whatever")));
    assert_eq!(reply.get_type(), PacketType::Okay);
    assert_eq!(reply.get_data(), "Logout Successfully");
    assert!(client.me.is_none());
    let reply = reply_of(client.run(&request(PacketType::Logout, "")));
    assert_eq!(reply.get_data(), "Logout Successfully");
    assert!(client.me.is_none());
}

#[test]
fn malformed_bodies_are_refused_by_name() {
    let mut client = Client::new();
    let cases = [
        (PacketType::Login, "Packet Type Error Login"),
        (PacketType::Register, "Packet Type Error Register"),
        (PacketType::E2E, "Packet Type Error E2E"),
        (PacketType::CreateGroup, "Packet Type Error CreateGroup"),
        (PacketType::AddUser, "Packet Type Error AddUser"),
        (PacketType::CreateMessage, "Packet Type Error CreateMessage"),
        (PacketType::GetMessages, "Packet Type Error GetMessages"),
        (PacketType::GetChats, "Packet Type Error GetChats"),
    ];
    for (kind, expected) in cases {
        let reply = reply_of(client.run(&request(kind, "not json")));
        assert_eq!(reply.get_type(), PacketType::Error);
        assert_eq!(reply.get_data(), expected);
    }
    let reply = reply_of(client.run(&request(PacketType::Login, "{\"username\":\"a\"}")));
    assert_eq!(reply.get_data(), "Packet Type Error Login");
}

#[test]
fn kinds_that_are_no_request_are_refused() {
    let mut client = Client::new();
    let kinds = [
        PacketType::PubKey,
        PacketType::Error,
        PacketType::Empty,
        PacketType::Okay,
        PacketType::Listen,
        PacketType::Refresh,
    ];
    for kind in kinds {
        let reply = reply_of(client.run(&request(kind, "{}")));
        assert_eq!(reply.get_type(), PacketType::Error);
        assert_eq!(reply.get_data(), "Packet Type Error");
    }
}

#[test]
fn well_formed_requests_without_a_handler_stop() {
    let mut client = Client::new();
    assert!(matches!(client.run(&request(PacketType::GetChats, "{}")), Action::Unimplemented));
    assert!(matches!(
        client.run(&request(PacketType::GetMessages, "{\"x\":1}")),
        Action::Unimplemented
    ));
    assert!(matches!(
        client.run(&request(
            PacketType::CreateGroup,
            "{\"id\":\"67e55044-10b1-426f-9247-bb680e5fe0c8\",\"name\":\"g\"}"
        )),
        Action::Unimplemented
    ));
}
