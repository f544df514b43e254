//! Core of an FTP client: recognized reply codes, exact-size command
//! encoding, an incremental parser for (possibly multi-line) replies, the
//! decoders for passive-mode addresses and FEAT capability listings, and the
//! control-channel choreography as an explicit state machine.
//!
//! Everything here is transport-free: a driver owns the sockets, feeds each
//! control line to the session machine, and performs the actions the machine
//! hands back.

use vstd::prelude::*;

pub mod code;
pub mod commands;
pub mod error;
pub mod parsers;
pub mod response;
pub mod session;

pub use crate::code::Code;
pub use crate::error::Error;

verus! {

/// Shorthand for results whose error is this crate's [`Error`].
pub type Result<T> = core::result::Result<T, Error>;

/// Configuration negotiated while connecting: currently only whether the
/// server advertised the MLST/MLSD listing extension in its FEAT reply.
#[derive(Clone, Copy, Debug, PartialEq, Eq, Structural)]
pub struct Config {
    pub mlst_supported: bool,
}

impl Default for Config {
    fn default() -> (c: Config)
        ensures
            !c.mlst_supported,
    {
        Config { mlst_supported: false }
    }
}

/// Marker for a client whose control connection is not yet established.
pub struct Disconnected;

/// Marker for a client whose control connection is established.
pub struct Connected;

} // verus!
