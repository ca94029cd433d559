//! The server: its configuration, what it keeps of a user in the store, and
//! what it answers to a packet.

pub mod client;
pub mod database;

use crate::text::{count_of, parse_count};
use vstd::prelude::*;
use vstd::utf8::*;

verus! {

/// What the server is started with.
pub struct Config {
    /// The address to listen on.
    pub addr: String,
    /// How many connections are served at a time.
    pub max_workers: usize,
    /// Flags, kept as they were given.
    pub flags: String,
}

impl Config {
    /// Reads the configuration from the words of the command line: the
    /// program's name, which is passed over, then the address, the number of
    /// workers and the flags. Further words are ignored.
    ///
    /// The number of workers, where it is given, has to be a count.
    pub fn new(args: &Vec<String>) -> (r: Result<Self, &'static str>)
        requires
            args.len() >= 3 ==> count_of(encode_utf8(args[2]@)) is Some,
        ensures
            match r {
                Ok(config) => args.len() >= 4 && config.addr == args[1] && Some(
                    config.max_workers,
                ) == count_of(encode_utf8(args[2]@)) && config.flags == args[3],
                Err(words) => if args.len() < 2 {
                    words@ == "Address not provided"@
                } else if args.len() < 3 {
                    words@ == "Max Workers not provided"@
                } else {
                    args.len() < 4 && words@ == "Flags not provided"@
                },
            },
    {
        if args.len() < 2 {
            return Err("Address not provided");
        }
        let addr = args[1].clone();
        if args.len() < 3 {
            return Err("Max Workers not provided");
        }
        let max_workers = match parse_count(args[2].as_str()) {
            Some(count) => count,
            None => vstd::pervasive::unreached(),
        };
        if args.len() < 4 {
            return Err("Flags not provided");
        }
        let flags = args[3].clone();
        Ok(Self { addr, max_workers, flags })
    }
}

} // verus!
