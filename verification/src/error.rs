//! Structured failures of the protocol engine.

use vstd::prelude::*;

use crate::code::Code;

verus! {

/// Everything that can go wrong inside the protocol engine itself.
///
/// Transport failures are not represented here: the engine never touches a
/// socket, so I/O errors belong to the driver that does.
#[derive(Clone, Copy, Debug, PartialEq, Eq)]
pub enum Error {
    /// A line arrived that does not fit the reply grammar at the parser's
    /// current state.
    IncompleteResponse,
    /// Three bytes that are not a recognized reply code.
    InvalidCode([u8; 3]),
    /// A recognized code that is not among those allowed at the current
    /// protocol step; carries the code actually received.
    UnexpectedCode(Code),
    /// A passive-mode reply whose body does not hold a well-formed
    /// `(h1,h2,h3,h4,p1,p2)` tuple of decimal numbers in range.
    InvalidPassiveModeReply,
}

} // verus!
