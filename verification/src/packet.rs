//! Packets: the unit that travels, and the typed envelope around a body.
//!
//! A [`DataPacket`] is what goes over the wire: a kind and a string. A
//! [`Packet`] is a kind and a typed body; [`Packet::to`] turns it into a
//! `DataPacket` and [`Packet::parse`] turns a `DataPacket` back.

use crate::json::{
    error_text, json_error_text, json_parsed, json_quoted, json_string_member, parse, quoted,
    string_member,
};
use crate::kind::{kind_name, kind_named, PacketType};
use crate::text::{holds_no_control, join3, lemma_joined_holds_no_control};
use serde_json::Value;
use vstd::prelude::*;
use vstd::string::*;

verus! {

/// Why a packet could not be sent, received or read.
#[derive(Debug)]
pub struct PacketError {
    pub message: String,
}

/// Why a packet could not be sent, received or read, as one line of text.
pub open spec fn packet_error_shown(message: Seq<char>) -> Seq<char> {
    "{ PackerError: "@ + message + " }"@
}

impl PacketError {
    /// An error with a message of the library's own.
    pub fn new(message: &str) -> (error: PacketError)
        ensures
            error.message@ == message@,
    {
        PacketError { message: String::from_str(message) }
    }

    /// The error as one line of text.
    pub fn to_string(&self) -> (text: String)
        ensures
            text@ == packet_error_shown(self.message@),
    {
        join3("{ PackerError: ", self.message.as_str(), " }")
    }
}

/// The unit that travels: a kind and a string that only the receiver of that
/// kind has to understand.
pub struct DataPacket {
    pub p_type: PacketType,
    pub data: String,
}

/// A [`DataPacket`] as contracts speak of it.
pub ghost struct DataPacketView {
    pub p_type: PacketType,
    pub data: Seq<char>,
}

impl View for DataPacket {
    type V = DataPacketView;

    open spec fn view(&self) -> DataPacketView {
        DataPacketView { p_type: self.p_type, data: self.data@ }
    }
}

/// The JSON text of a packet: an object with the kind's name under `p_type`
/// and the string under `data`, in that order and without spaces.
pub open spec fn envelope_text(packet: DataPacketView) -> Seq<char> {
    "{\"p_type\":"@ + json_quoted(kind_name(packet.p_type)) + ",\"data\":"@ + json_quoted(
        packet.data,
    ) + "}"@
}

/// The packet that a text stands for, or the reason it stands for none. A text
/// is a packet when it is a JSON object whose `p_type` is a string that names a
/// kind and whose `data` is a string; other members are passed over.
pub open spec fn envelope_read(text: Seq<char>) -> Result<DataPacketView, Seq<char>> {
    match json_parsed(text) {
        Err(error) => Err(json_error_text(error)),
        Ok(doc) => match json_string_member(doc, "p_type"@) {
            None => Err("missing field `p_type`"@),
            Some(name) => match kind_named(name) {
                None => Err("unknown packet type"@),
                Some(kind) => match json_string_member(doc, "data"@) {
                    None => Err("missing field `data`"@),
                    Some(data) => Ok(DataPacketView { p_type: kind, data }),
                },
            },
        },
    }
}

impl DataPacket {
    /// A packet of kind `Error` that carries a message.
    pub fn error_message(message: String) -> (packet: Self)
        ensures
            packet.p_type == PacketType::Error,
            packet.data == message,
    {
        Self { p_type: PacketType::Error, data: message }
    }

    /// A packet of kind `Ok` that carries a message.
    pub fn ok_message(message: String) -> (packet: Self)
        ensures
            packet.p_type == PacketType::Okay,
            packet.data == message,
    {
        Self { p_type: PacketType::Okay, data: message }
    }

    /// Reads a packet from its JSON text.
    pub fn new(buf: String) -> (r: Result<Self, PacketError>)
        ensures
            match r {
                Ok(packet) => envelope_read(buf@) == Ok::<DataPacketView, Seq<char>>(packet@),
                Err(error) => envelope_read(buf@) == Err::<DataPacketView, Seq<char>>(
                    error.message@,
                ),
            },
    {
        let doc = match parse(buf.as_str()) {
            Ok(doc) => doc,
            Err(error) => return Err(PacketError { message: error_text(&error) }),
        };
        let name = match string_member(&doc, "p_type") {
            Some(name) => name,
            None => return Err(PacketError::new("missing field `p_type`")),
        };
        let kind = match PacketType::from_name(name) {
            Some(kind) => kind,
            None => return Err(PacketError::new("unknown packet type")),
        };
        let data = match string_member(&doc, "data") {
            Some(data) => data,
            None => return Err(PacketError::new("missing field `data`")),
        };
        Ok(Self { p_type: kind, data: String::from_str(data) })
    }

    /// Writes the packet as JSON text. The text holds no control character,
    /// and so neither of the bytes that mark a frame.
    pub fn buf(&self) -> (r: Result<String, PacketError>)
        ensures
            r matches Ok(text) && text@ == envelope_text(self@) && holds_no_control(text@),
    {
        let kind = quoted(self.p_type.name());
        let data = quoted(self.data.as_str());
        let mut text = String::from_str("{\"p_type\":");
        text.append(kind.as_str());
        text.append(",\"data\":");
        text.append(data.as_str());
        text.append("}");
        proof {
            reveal_strlit("{\"p_type\":");
            reveal_strlit(",\"data\":");
            reveal_strlit("}");
            let a = "{\"p_type\":"@;
            let b = ",\"data\":"@;
            let c = "}"@;
            assert(holds_no_control(a));
            assert(holds_no_control(b));
            assert(holds_no_control(c));
            lemma_joined_holds_no_control(a, kind@);
            lemma_joined_holds_no_control(a + kind@, b);
            lemma_joined_holds_no_control(a + kind@ + b, data@);
            lemma_joined_holds_no_control(a + kind@ + b + data@, c);
        }
        Ok(text)
    }

    /// The packet's kind.
    pub fn get_type(&self) -> (kind: PacketType)
        ensures
            kind == self.p_type,
    {
        self.p_type
    }

    /// A copy of the string that the packet carries.
    pub fn get_data(&self) -> (data: String)
        ensures
            data == self.data,
    {
        self.data.clone()
    }
}

/// A type that can travel as the body of a packet: it has a JSON text, and a
/// JSON document either stands for a value of it or does not.
pub trait Body: Sized + View {
    /// The JSON text of a body.
    spec fn encoded(body: Self::V) -> Seq<char>;

    /// The body that a JSON document stands for, if it stands for one.
    spec fn decoded(doc: Value) -> Option<Self::V>;

    /// Writes the body as JSON text.
    fn encode(&self) -> (text: String)
        ensures
            text@ == Self::encoded(self@),
    ;

    /// Reads a body from a JSON document.
    fn decode(doc: &Value) -> (r: Option<Self>)
        ensures
            match r {
                Some(body) => Self::decoded(*doc) == Some(body@),
                None => Self::decoded(*doc) is None,
            },
    ;

    /// Whether two bodies hold the same values.
    fn same(&self, other: &Self) -> (same: bool)
        ensures
            same == (self@ == other@),
    ;
}

/// The body that a JSON text stands for, or the reason it stands for none.
pub open spec fn body_read<T: Body>(text: Seq<char>) -> Result<T::V, Seq<char>> {
    match json_parsed(text) {
        Err(error) => Err(json_error_text(error)),
        Ok(doc) => match T::decoded(doc) {
            Some(body) => Ok(body),
            None => Err("invalid body"@),
        },
    }
}

/// Reads a body from JSON text.
pub fn read_body<T: Body>(text: &str) -> (r: Result<T, PacketError>)
    ensures
        match r {
            Ok(body) => body_read::<T>(text@) == Ok::<T::V, Seq<char>>(body@),
            Err(error) => body_read::<T>(text@) == Err::<T::V, Seq<char>>(error.message@),
        },
{
    match parse(text) {
        Err(error) => Err(PacketError { message: error_text(&error) }),
        Ok(doc) => match T::decode(&doc) {
            Some(body) => Ok(body),
            None => Err(PacketError::new("invalid body")),
        },
    }
}

/// A kind and a typed body.
pub struct Packet<T> {
    pub p_type: PacketType,
    pub body: T,
}

impl<T: Body> Packet<T> {
    /// What [`Packet::to`] hands out for a kind and a body: the kind and the
    /// body's text, where that text reads back as the same body, and nothing
    /// where it does not.
    pub open spec fn wire(kind: PacketType, body: T::V) -> Option<DataPacketView> {
        if body_read::<T>(T::encoded(body)) == Ok::<T::V, Seq<char>>(body) {
            Some(DataPacketView { p_type: kind, data: T::encoded(body) })
        } else {
            None
        }
    }

    /// What [`Packet::parse`] makes of a packet: its kind and the body that its
    /// string stands for, or an `Error` packet with the fallback message.
    pub open spec fn parsed(packet: DataPacketView, fallback: Seq<char>) -> Result<
        (PacketType, T::V),
        DataPacketView,
    > {
        match body_read::<T>(packet.data) {
            Ok(body) => Ok((packet.p_type, body)),
            Err(_) => Err(DataPacketView { p_type: PacketType::Error, data: fallback }),
        }
    }

    /// Reads the body of a packet; the kind is kept.
    pub fn from(packet: &DataPacket) -> (r: Result<Self, PacketError>)
        ensures
            match r {
                Ok(typed) => typed.p_type == packet.p_type && body_read::<T>(packet.data@) == Ok::<
                    T::V,
                    Seq<char>,
                >(typed.body@),
                Err(error) => body_read::<T>(packet.data@) == Err::<T::V, Seq<char>>(
                    error.message@,
                ),
            },
    {
        match read_body::<T>(packet.data.as_str()) {
            Ok(body) => Ok(Self { p_type: packet.p_type, body }),
            Err(error) => Err(error),
        }
    }

    /// Turns the packet into the unit that travels. The body's text is read
    /// again before it is handed out, so whatever leaves here is known to come
    /// back as the same body; a body whose text does not is refused.
    pub fn to(&self) -> (r: Result<DataPacket, PacketError>)
        ensures
            match r {
                Ok(packet) => Self::wire(self.p_type, self.body@) == Some(packet@),
                Err(error) => Self::wire(self.p_type, self.body@) is None && error.message@
                    == "body does not read back"@,
            },
    {
        let data = self.body.encode();
        match read_body::<T>(data.as_str()) {
            Ok(body) => {
                if body.same(&self.body) {
                    Ok(DataPacket { p_type: self.p_type, data })
                } else {
                    Err(PacketError::new("body does not read back"))
                }
            },
            Err(_) => Err(PacketError::new("body does not read back")),
        }
    }

    /// A packet of a kind with a body.
    pub fn new(p_type: PacketType, body: T) -> (packet: Self)
        ensures
            packet.p_type == p_type,
            packet.body == body,
    {
        Self { p_type, body }
    }

    /// The kind and the body.
    pub fn get(self) -> (parts: (PacketType, T))
        ensures
            parts.0 == self.p_type,
            parts.1 == self.body,
    {
        (self.p_type, self.body)
    }

    /// Reads the body of a packet. Where the string is no body of this type,
    /// the result is a packet to send back in its place: kind `Error`, with
    /// the message given.
    pub fn parse(packet: &DataPacket, error_message: &str) -> (r: Result<Self, DataPacket>)
        ensures
            match r {
                Ok(typed) => Self::parsed(packet@, error_message@) == Ok::<
                    (PacketType, T::V),
                    DataPacketView,
                >((typed.p_type, typed.body@)),
                Err(reply) => Self::parsed(packet@, error_message@) == Err::<
                    (PacketType, T::V),
                    DataPacketView,
                >(reply@),
            },
    {
        match Self::from(packet) {
            Ok(typed) => Ok(typed),
            Err(_) => Err(DataPacket::error_message(String::from_str(error_message))),
        }
    }
}

/// A packet that was turned into the unit that travels is read back as the
/// same kind and the same body, whatever message is given for the other case.
pub proof fn lemma_packet_round_trip<T: Body>(kind: PacketType, body: T::V, fallback: Seq<char>)
    ensures
        Packet::<T>::wire(kind, body) matches Some(packet) ==> Packet::<T>::parsed(
            packet,
            fallback,
        ) == Ok::<(PacketType, T::V), DataPacketView>((kind, body)),
{
}

} // verus!
