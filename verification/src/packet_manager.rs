//! Packets on a byte stream: what to write for a packet, and what the bytes
//! that were read stand for.

use crate::frame::{frame_read, framed, lemma_frame_round_trip, read_frame, write_frame};
use crate::packet::{envelope_read, envelope_text, DataPacket, DataPacketView, PacketError};
use crate::text::{holds_no_control, lemma_bytes_hold_no_control};
use std::string::FromUtf8Error;
use vstd::prelude::*;
use vstd::string::*;
use vstd::utf8::*;

verus! {

/// The reason std gives for refusing bytes as text.
#[verifier::external_type_specification]
#[verifier::external_body]
pub struct ExFromUtf8Error(std::string::FromUtf8Error);

/// The error that `String::from_utf8` returns for bytes that are not UTF-8.
pub uninterp spec fn utf8_fault(bytes: Seq<u8>) -> FromUtf8Error;

/// The words in which std states such an error.
pub uninterp spec fn utf8_fault_text(fault: FromUtf8Error) -> Seq<char>;

/// Calls `String::from_utf8`. Trusted: the call succeeds exactly on valid
/// UTF-8, the string then holds the characters that the bytes encode, and the
/// error otherwise depends on the bytes alone.
#[verifier::external_body]
fn text_of_bytes(bytes: Vec<u8>) -> (r: Result<String, FromUtf8Error>)
    ensures
        match r {
            Ok(text) => valid_utf8(bytes@) && text@ == decode_utf8(bytes@),
            Err(fault) => !valid_utf8(bytes@) && fault == utf8_fault(bytes@),
        },
{
    String::from_utf8(bytes)
}

/// Calls `to_string` on a `FromUtf8Error`, which writes it as `Display` does.
/// Trusted: the words depend on the error alone.
#[verifier::external_body]
fn fault_text(fault: &FromUtf8Error) -> (text: String)
    ensures
        text@ == utf8_fault_text(*fault),
{
    fault.to_string()
}

/// The packet that a payload stands for, or the words of the error: the
/// payload has to be UTF-8, and its text a packet.
pub open spec fn payload_read(payload: Seq<u8>) -> Result<DataPacketView, Seq<char>> {
    if valid_utf8(payload) {
        envelope_read(decode_utf8(payload))
    } else {
        Err(utf8_fault_text(utf8_fault(payload)))
    }
}

/// The packet that the bytes of a stream stand for, or the words of the error.
pub open spec fn packet_read(stream: Seq<u8>) -> Result<DataPacketView, Seq<char>> {
    match frame_read(stream) {
        Ok(payload) => payload_read(payload),
        Err(words) => Err(words),
    }
}

/// The bytes that a packet travels as: the frame around its JSON text.
pub open spec fn packet_written(packet: DataPacketView) -> Seq<u8> {
    framed(encode_utf8(envelope_text(packet)))
}

/// The bytes to write to a stream for a packet. They are read from a stream
/// as whatever the packet's own text is read as: the frame cuts nothing off.
pub fn send_packet(packet: DataPacket) -> (r: Result<Vec<u8>, PacketError>)
    ensures
        r matches Ok(frame) && frame@ == packet_written(packet@) && packet_read(frame@)
            == envelope_read(envelope_text(packet@)),
{
    let text = match packet.buf() {
        Ok(text) => text,
        Err(error) => return Err(error),
    };
    proof {
        lemma_packet_survives_framing(packet@);
    }
    Ok(write_frame(text.as_str().as_bytes()))
}

/// Reads the payload of a frame as a packet.
pub fn read_payload(payload: Vec<u8>) -> (r: Result<DataPacket, PacketError>)
    ensures
        match r {
            Ok(packet) => payload_read(payload@) == Ok::<DataPacketView, Seq<char>>(packet@),
            Err(error) => payload_read(payload@) == Err::<DataPacketView, Seq<char>>(
                error.message@,
            ),
        },
{
    let text = match text_of_bytes(payload) {
        Ok(text) => text,
        Err(fault) => return Err(PacketError { message: fault_text(&fault) }),
    };
    DataPacket::new(text)
}

/// Reads one packet from the bytes of a stream: one frame, from the first
/// byte, whose payload is the packet's JSON text.
pub fn recv_packet(stream: &[u8]) -> (r: Result<DataPacket, PacketError>)
    ensures
        match r {
            Ok(packet) => packet_read(stream@) == Ok::<DataPacketView, Seq<char>>(packet@),
            Err(error) => packet_read(stream@) == Err::<DataPacketView, Seq<char>>(
                error.message@,
            ),
        },
{
    match read_frame(stream) {
        Ok(payload) => read_payload(payload),
        Err(error) => Err(error),
    }
}

/// Where the text of a packet holds no control character, the bytes written
/// for the packet are read as whatever that text is read as.
pub proof fn lemma_packet_survives_framing(packet: DataPacketView)
    requires
        holds_no_control(envelope_text(packet)),
    ensures
        packet_read(packet_written(packet)) == envelope_read(envelope_text(packet)),
{
    let text = envelope_text(packet);
    lemma_bytes_hold_no_control(text);
    lemma_frame_round_trip(encode_utf8(text));
    encode_utf8_valid_utf8(text);
    encode_utf8_decode_utf8(text);
}

} // verus!
