use secure_chat::kind::PacketType;
use secure_chat::models::{Chats, Empty, Group, Member, Message, Messages, Refresh, User, E2E};
use secure_chat::moment::DateTime;
use secure_chat::packet::{Body, DataPacket, Packet, PacketError};
use secure_chat::packet_manager::{read_payload, recv_packet, send_packet};

fn alice() -> User {
    User::full(String::from("Alice"), String::from("alice"), String::from("secret"))
}

#[test]
fn kind_names_are_the_variant_names() {
    assert_eq!(PacketType::Login.name(), "Login");
    assert_eq!(PacketType::Okay.name(), "Ok");
    assert_eq!(PacketType::E2E.name(), "E2E");
    assert_eq!(PacketType::from_name("GetChats"), Some(PacketType::GetChats));
    assert_eq!(PacketType::from_name("Ok"), Some(PacketType::Okay));
    assert_eq!(PacketType::from_name("login"), None);
    assert_eq!(PacketType::from_name(""), None);
}

#[test]
fn every_kind_is_found_under_its_name() {
    let kinds = [
        PacketType::PubKey,
        PacketType::Error,
        PacketType::Empty,
        PacketType::Okay,
        PacketType::Refresh,
        PacketType::E2E,
        PacketType::Login,
        PacketType::Logout,
        PacketType::Register,
        PacketType::CreateGroup,
        PacketType::AddUser,
        PacketType::CreateMessage,
        PacketType::GetMessages,
        PacketType::GetChats,
        PacketType::Listen,
    ];
    for kind in kinds {
        assert_eq!(PacketType::from_name(kind.name()), Some(kind));
    }
}

#[test]
fn packet_text_is_the_wire_format() {
    let packet = DataPacket::ok_message(String::from("Login Successfully"));
    assert_eq!(
        packet.buf().ok(),
        Some(String::from("{\"p_type\":\"Ok\",\"data\":\"Login Successfully\"}"))
    );
    let packet = DataPacket::error_message(String::from("a \"b\"\n\u{3}"));
    assert_eq!(
        packet.buf().ok(),
        Some(String::from("{\"p_type\":\"Error\",\"data\":\"a \\\"b\\\"\\n\\u0003\"}"))
    );
}

#[test]
fn packet_text_reads_back() {
    let packet = DataPacket::new(String::from(
        " { \"data\" : \"x\\ny\", \"extra\": [1, 2], \"p_type\" : \"Register\" } ",
    ))
    .ok()
    .expect("a packet");
    assert_eq!(packet.get_type(), PacketType::Register);
    assert_eq!(packet.get_data(), "x\ny");
}

#[test]
fn packet_text_errors() {
    let message = |text: &str| DataPacket::new(String::from(text)).err().map(|e| e.message);
    assert_eq!(message("{\"data\":\"x\"}"), Some(String::from("missing field `p_type`")));
    assert_eq!(
        message("{\"p_type\":\"Login\"}"),
        Some(String::from("missing field `data`"))
    );
    assert_eq!(
        message("{\"p_type\":\"Nope\",\"data\":\"\"}"),
        Some(String::from("unknown packet type"))
    );
    assert_eq!(
        message("{\"p_type\":1,\"data\":\"\"}"),
        Some(String::from("missing field `p_type`"))
    );
    assert_eq!(
        message("nonsense"),
        Some(String::from("expected ident at line 1 column 2"))
    );
    assert_eq!(
        message(""),
        Some(String::from("EOF while parsing a value at line 1 column 0"))
    );
}

#[test]
fn packet_error_shows_as_one_line() {
    let error = PacketError::new("Bad Packet");
    assert_eq!(error.to_string(), "{ PackerError: Bad Packet }");
}

#[test]
fn user_body_round_trip() {
    let wire = Packet::new(PacketType::Login, alice()).to().ok().expect("wire");
    assert_eq!(wire.get_type(), PacketType::Login);
    assert_eq!(
        wire.get_data(),
        "{\"name\":\"Alice\",\"username\":\"alice\",\"password\":\"secret\"}"
    );
    let back = Packet::<User>::parse(&wire, "no").ok().expect("typed");
    let (kind, user) = back.get();
    assert_eq!(kind, PacketType::Login);
    assert!(user.same(&alice()));
}

#[test]
fn user_body_with_odd_characters_round_trip() {
    let odd = User::full(
        String::from("\u{2}\u{3}\"\\\n"),
        String::from("\u{e9}\u{1F600}"),
        String::from(""),
    );
    let wire = Packet::new(PacketType::Register, odd).to().ok().expect("wire");
    let back = Packet::<User>::parse(&wire, "no").ok().expect("typed");
    let (_, user) = back.get();
    assert_eq!(user.name, "\u{2}\u{3}\"\\\n");
    assert_eq!(user.username, "\u{e9}\u{1F600}");
    assert_eq!(user.password, "");
}

#[test]
fn parse_gives_the_fallback_packet() {
    let wire = DataPacket::ok_message(String::from("Login Successfully"));
    let reply = Packet::<User>::parse(&wire, "Wrong Packet Received").err().expect("a reply");
    assert_eq!(reply.get_type(), PacketType::Error);
    assert_eq!(reply.get_data(), "Wrong Packet Received");
    let wire = DataPacket::ok_message(String::from("{\"name\":\"a\",\"username\":\"b\"}"));
    assert!(Packet::<User>::parse(&wire, "x").is_err());
    let error = Packet::<User>::from(&wire).err().expect("an error");
    assert_eq!(error.message, "invalid body");
}

#[test]
fn other_bodies_round_trip() {
    let group = || Group { id: 0x67e5504410b1426f9247bb680e5fe0c8, name: String::from("g") };
    let member = || Member { group: group(), user: alice() };
    let stamp = DateTime::new(2024, 60, 23, 59, 58, 999_999_999).expect("a moment");
    let message =
        Message { id: 1, member: member(), body: String::from("hi"), created_at: stamp };

    let wire = Packet::new(PacketType::CreateGroup, group()).to().ok().expect("wire");
    assert_eq!(
        wire.get_data(),
        "{\"id\":\"67e55044-10b1-426f-9247-bb680e5fe0c8\",\"name\":\"g\"}"
    );
    assert!(Packet::<Group>::parse(&wire, "x").ok().expect("group").get().1.same(&group()));

    let wire = Packet::new(PacketType::AddUser, member()).to().ok().expect("wire");
    assert!(Packet::<Member>::parse(&wire, "x").ok().expect("member").get().1.same(&member()));

    let wire = Packet::new(PacketType::CreateMessage, message).to().ok().expect("wire");
    assert_eq!(
        wire.get_data(),
        "{\"id\":\"00000000-0000-0000-0000-000000000001\",\"member\":{\"group\":{\"id\":\"67e55044-10b1-426f-9247-bb680e5fe0c8\",\"name\":\"g\"},\"user\":{\"name\":\"Alice\",\"username\":\"alice\",\"password\":\"secret\"}},\"body\":\"hi\",\"created_at\":[2024,60,23,59,58,999999999]}"
    );
    let back = Packet::<Message>::parse(&wire, "x").ok().expect("message").get().1;
    assert_eq!(back.created_at, stamp);
    assert_eq!(back.id, 1);

    let e2e = E2E { public_key: String::from("key"), user: alice() };
    let wire = Packet::new(PacketType::E2E, e2e).to().ok().expect("wire");
    assert_eq!(
        wire.get_data(),
        "{\"public_key\":\"key\",\"user\":{\"name\":\"Alice\",\"username\":\"alice\",\"password\":\"secret\"}}"
    );
    assert!(Packet::<E2E>::parse(&wire, "x").is_ok());

    let wire = Packet::new(PacketType::GetChats, Empty {}).to().ok().expect("wire");
    assert_eq!(wire.get_data(), "{}");
    assert!(Packet::<Empty>::parse(&wire, "x").is_ok());
}

#[test]
fn moments_that_do_not_exist_are_refused() {
    assert!(DateTime::new(2023, 366, 0, 0, 0, 0).is_none());
    assert!(DateTime::new(2024, 366, 0, 0, 0, 0).is_some());
    assert!(DateTime::new(2024, 0, 0, 0, 0, 0).is_none());
    assert!(DateTime::new(2024, 1, 24, 0, 0, 0).is_none());
    assert!(DateTime::new(2024, 1, 0, 60, 0, 0).is_none());
    assert!(DateTime::new(2024, 1, 0, 0, 60, 0).is_none());
    assert!(DateTime::new(2024, 1, 0, 0, 0, 1_000_000_000).is_none());
    let wire = DataPacket::ok_message(String::from(
        "{\"id\":\"00000000-0000-0000-0000-000000000001\",\"member\":{\"group\":{\"id\":\"67e55044-10b1-426f-9247-bb680e5fe0c8\",\"name\":\"g\"},\"user\":{\"name\":\"\",\"username\":\"a\",\"password\":\"\"}},\"body\":\"\",\"created_at\":[2023,366,0,0,0,0]}",
    ));
    assert!(Packet::<Message>::parse(&wire, "x").is_err());
    let wire = DataPacket::ok_message(String::from("{\"id\":\"not-an-id\",\"name\":\"g\"}"));
    assert!(Packet::<Group>::parse(&wire, "x").is_err());
}

#[test]
fn sent_packet_is_received() {
    let frame = send_packet(DataPacket::ok_message(String::from("caf\u{e9} \u{3}")))
        .ok()
        .expect("a frame");
    assert_eq!(frame[0], 2);
    assert_eq!(frame[frame.len() - 1], 3);
    assert_eq!(
        &frame[1..frame.len() - 1],
        "{\"p_type\":\"Ok\",\"data\":\"caf\u{e9} \\u0003\"}".as_bytes()
    );
    let packet = recv_packet(&frame).ok().expect("a packet");
    assert_eq!(packet.get_type(), PacketType::Okay);
    assert_eq!(packet.get_data(), "caf\u{e9} \u{3}");
}

#[test]
fn received_bytes_that_are_no_text_are_refused() {
    let error = recv_packet(&[2, 0xff, 0xfe, 3]).err().expect("an error");
    assert_eq!(error.message, "invalid utf-8 sequence of 1 bytes from index 0");
    let error = read_payload(vec![b'{', 0xc3]).err().expect("an error");
    assert_eq!(error.message, "incomplete utf-8 byte sequence from index 1");
    let error = recv_packet(&[2, b'{', b'}', 3]).err().expect("an error");
    assert_eq!(error.message, "missing field `p_type`");
    let error = recv_packet(&[9, b'{', b'}', 3]).err().expect("an error");
    assert_eq!(error.message, "Bad Packet");
}

#[test]
fn received_bytes_without_an_end_marker_are_refused() {
    let mut stream = vec![2];
    stream.extend_from_slice(b"{\"p_type\":\"Ok\",\"data\":\"hi\"}");
    let error = recv_packet(&stream).err().expect("an error");
    assert_eq!(error.message, "failed to fill whole buffer");
    stream.push(3);
    assert!(recv_packet(&stream).is_ok());
}

#[test]
fn moments_follow_the_calendar() {
    assert!(DateTime::new(1900, 366, 0, 0, 0, 0).is_none());
    assert!(DateTime::new(2000, 366, 0, 0, 0, 0).is_some());
    assert!(DateTime::new(2100, 366, 0, 0, 0, 0).is_none());
    assert!(DateTime::new(2023, 365, 23, 59, 59, 999_999_999).is_some());
    assert!(DateTime::new(-4, 366, 0, 0, 0, 0).is_some());
    assert!(DateTime::new(-100, 366, 0, 0, 0, 0).is_none());
    assert!(DateTime::new(0, 366, 0, 0, 0, 0).is_some());
    assert!(DateTime::new(9999, 1, 0, 0, 0, 0).is_some());
    assert!(DateTime::new(10000, 1, 0, 0, 0, 0).is_none());
    assert!(DateTime::new(-9999, 1, 0, 0, 0, 0).is_some());
    assert!(DateTime::new(-10000, 1, 0, 0, 0, 0).is_none());
}

#[test]
fn moments_are_six_numbers_and_no_more() {
    let message = |stamp: &str| {
        let text = format!(
            "{{\"id\":\"00000000-0000-0000-0000-000000000001\",\"member\":{{\"group\":{{\"id\":\"67e55044-10b1-426f-9247-bb680e5fe0c8\",\"name\":\"g\"}},\"user\":{{\"name\":\"\",\"username\":\"a\",\"password\":\"\"}}}},\"body\":\"\",\"created_at\":{}}}",
            stamp
        );
        Packet::<Message>::parse(&DataPacket::ok_message(text), "x").ok()
    };
    assert!(message("[2024,60,1,2,3,4]").is_some());
    assert!(message("[2024,60,1,2,3,4,5]").is_none());
    assert!(message("[2024,60,1,2,3]").is_none());
    assert!(message("[2024,60,1,2,3,4.0]").is_none());
    assert!(message("[2024,60,1,2,3,\"4\"]").is_none());
    assert!(message("[2024,60,256,2,3,4]").is_none());
    assert!(message("\"2024-02-29\"").is_none());
    let early = message("[-44,75,0,0,0,0]").expect("a message");
    assert_eq!(early.get().1.created_at.year, -44);
}

#[test]
fn moments_are_written_in_decimal() {
    let group = Group { id: 0, name: String::new() };
    let user = User::simple(String::new(), String::new());
    let stamp = DateTime::new(-9999, 1, 0, 0, 0, 0).expect("a moment");
    let message = Message {
        id: 0,
        member: Member { group, user },
        body: String::new(),
        created_at: stamp,
    };
    let wire = Packet::new(PacketType::CreateMessage, message).to().ok().expect("wire");
    assert!(wire.get_data().ends_with("\"created_at\":[-9999,1,0,0,0,0]}"));
}

#[test]
fn lists_round_trip() {
    let group = |name: &str| Group { id: 7, name: String::from(name) };
    let chats = || Chats { is_new: true, groups: vec![group("a"), group("b")] };
    let wire = Packet::new(PacketType::GetChats, chats()).to().ok().expect("wire");
    assert_eq!(
        wire.get_data(),
        "{\"is_new\":true,\"groups\":[{\"id\":\"00000000-0000-0000-0000-000000000007\",\"name\":\"a\"},{\"id\":\"00000000-0000-0000-0000-000000000007\",\"name\":\"b\"}]}"
    );
    let back = Packet::<Chats>::parse(&wire, "x").ok().expect("chats").get().1;
    assert!(back.same(&chats()));
    assert_eq!(back.groups.len(), 2);
    assert_eq!(back.groups[1].name, "b");

    let none = Chats { is_new: false, groups: Vec::new() };
    let wire = Packet::new(PacketType::GetChats, none).to().ok().expect("wire");
    assert_eq!(wire.get_data(), "{\"is_new\":false,\"groups\":[]}");
    assert!(Packet::<Chats>::parse(&wire, "x").is_ok());

    let messages = Messages { group: group("g"), messages: Vec::new() };
    let wire = Packet::new(PacketType::GetMessages, messages).to().ok().expect("wire");
    assert_eq!(
        wire.get_data(),
        "{\"group\":{\"id\":\"00000000-0000-0000-0000-000000000007\",\"name\":\"g\"},\"messages\":[]}"
    );
    assert!(Packet::<Messages>::parse(&wire, "x").is_ok());

    let refresh = Refresh { id: 9, is_group: true, is_message: false };
    let wire = Packet::new(PacketType::Refresh, refresh).to().ok().expect("wire");
    assert_eq!(
        wire.get_data(),
        "{\"id\":\"00000000-0000-0000-0000-000000000009\",\"is_group\":true,\"is_message\":false}"
    );
    let back = Packet::<Refresh>::parse(&wire, "x").ok().expect("refresh").get().1;
    assert_eq!(back, refresh);
}

#[test]
fn lists_that_are_none_are_refused() {
    let chats = |text: &str| {
        Packet::<Chats>::parse(&DataPacket::ok_message(String::from(text)), "x").is_ok()
    };
    assert!(chats("{\"is_new\":true,\"groups\":[]}"));
    assert!(!chats("{\"is_new\":1,\"groups\":[]}"));
    assert!(!chats("{\"is_new\":true,\"groups\":{}}"));
    assert!(!chats("{\"is_new\":true,\"groups\":[{\"name\":\"g\"}]}"));
    assert!(!chats("{\"is_new\":true}"));
}

#[test]
fn sent_packets_hold_no_frame_marker() {
    let odd = DataPacket::error_message(String::from("\u{0}\u{1}\u{2}\u{3}\u{1f}\u{7f}\u{80}"));
    let frame = send_packet(odd).ok().expect("a frame");
    let inner = &frame[1..frame.len() - 1];
    assert!(inner.iter().all(|byte| *byte >= 0x20));
    let packet = recv_packet(&frame).ok().expect("a packet");
    assert_eq!(packet.get_type(), PacketType::Error);
    assert_eq!(packet.get_data(), "\u{0}\u{1}\u{2}\u{3}\u{1f}\u{7f}\u{80}");
}
