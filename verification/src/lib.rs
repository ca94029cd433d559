//! The wire protocol of a small chat service and the decisions of the actors
//! that carry it: how a message is framed on a byte stream, how a typed packet
//! is wrapped for the wire and read back, what a server answers to a packet,
//! and what each actor of the terminal client does with an event.
//!
//! Nothing here touches a socket, a thread or a terminal. Every function takes
//! plain values and hands plain values back, so that the program around the
//! library only has to move bytes and events.

pub mod client;
pub mod frame;
pub mod ident;
pub mod json;
pub mod kind;
pub mod list;
pub mod models;
pub mod moment;
pub mod packet;
pub mod packet_manager;
pub mod server;
pub mod text;
