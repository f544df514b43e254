//! Recognized three-digit reply codes.

use vstd::prelude::*;

use crate::error::Error;

verus! {

/// 110 - Restart marker reply.
pub const RESTART_MARKER_REPLY: u16 = 110;

/// 120 - Service ready in nnn minutes.
pub const SERVICE_READY: u16 = 120;

/// 125 - Data connection already open; transfer starting.
pub const DATA_CONNECTION_ALREADY_OPEN: u16 = 125;

/// 150 - File status okay; about to open data connection.
pub const OPENING_DATA_CONNECTION: u16 = 150;

/// 200 - Command okay.
pub const COMMAND_OKAY: u16 = 200;

/// 211 - System status, or system help reply.
pub const SYSTEM_STATUS: u16 = 211;

/// 212 - Directory status.
pub const DIRECTORY_STATUS: u16 = 212;

/// 213 - File status.
pub const FILE_STATUS: u16 = 213;

/// 214 - Help message.
pub const HELP: u16 = 214;

/// 215 - NAME system type.
pub const SYSTEM_TYPE: u16 = 215;

/// 220 - Service ready for new user.
pub const READY: u16 = 220;

/// 221 - Service closing control connection.
pub const CLOSING_CONTROL_CONNECTION: u16 = 221;

/// 225 - Data connection open; no transfer in progress.
pub const DATA_CONNECTION_OPEN: u16 = 225;

/// 226 - Closing data connection; requested file action successful.
pub const CLOSING_DATA_CONNECTION: u16 = 226;

/// 227 - Entering Passive Mode (h1,h2,h3,h4,p1,p2).
pub const ENTERING_PASSIVE_MODE: u16 = 227;

/// 230 - User logged in, proceed.
pub const LOGGED_IN: u16 = 230;

/// 250 - Requested file action okay, completed.
pub const REQUESTED_FILE_ACTION_OKAY: u16 = 250;

/// 257 - "PATHNAME" created.
pub const CREATED: u16 = 257;

/// 331 - User name okay, need password.
pub const PASSWORD_REQUIRED: u16 = 331;

/// 332 - Need account for login.
pub const NEED_ACCOUNT_FOR_LOGIN: u16 = 332;

/// 350 - Requested file action pending further information.
pub const REQUESTED_FILE_ACTION_PENDING_FURTHER_INFORMATION: u16 = 350;

/// 421 - Service not available, closing control connection.
pub const SERVICE_NOT_AVAILABLE: u16 = 421;

/// 425 - Can't open data connection.
pub const CANT_OPEN_DATA_CONNECTION: u16 = 425;

/// 426 - Connection closed; transfer aborted.
pub const CONNECTION_CLOSED: u16 = 426;

/// 450 - Requested file action not taken; file unavailable.
pub const FILE_ACTION_UNAVAILABLE: u16 = 450;

/// 451 - Requested action aborted: local error in processing.
pub const LOCAL_ERROR_IN_PROCESSING: u16 = 451;

/// 452 - Requested action not taken; insufficient storage space.
pub const INSUFFICIENT_STORAGE_SPACE: u16 = 452;

/// 500 - Syntax error, command unrecognized.
pub const UNRECOGNIZED_COMMAND: u16 = 500;

/// 501 - Syntax error in parameters or arguments.
pub const UNRECOGNIZED_ARGUMENTS: u16 = 501;

/// 502 - Command not implemented.
pub const NOT_IMPLEMENTED: u16 = 502;

/// 503 - Bad sequence of commands.
pub const BAD_SEQUENCE: u16 = 503;

/// 504 - Command not implemented for that parameter.
pub const NOT_IMPLEMENTED_FOR_PARAMETER: u16 = 504;

/// 530 - Not logged in.
pub const NOT_LOGGED_IN: u16 = 530;

/// 532 - Need account for storing files.
pub const NEED_ACCOUNT_FOR_STORING_FILES: u16 = 532;

/// 550 - Requested action not taken; file unavailable.
pub const FILE_UNAVAILABLE: u16 = 550;

/// 551 - Requested action aborted: page type unknown.
pub const PAGE_TYPE_UNKNOWN: u16 = 551;

/// 552 - Requested file action aborted; exceeded storage allocation.
pub const EXCEEDED_STORAGE_ALLOCATION: u16 = 552;

/// 553 - Requested action not taken; file name not allowed.
pub const FILE_NAME_NOT_ALLOWED: u16 = 553;

/// Whether `v` is one of the reply codes the table recognizes.
pub open spec fn is_known_code(v: int) -> bool {
    ||| v == 110
    ||| v == 120
    ||| v == 125
    ||| v == 150
    ||| v == 200
    ||| v == 211
    ||| v == 212
    ||| v == 213
    ||| v == 214
    ||| v == 215
    ||| v == 220
    ||| v == 221
    ||| v == 225
    ||| v == 226
    ||| v == 227
    ||| v == 230
    ||| v == 250
    ||| v == 257
    ||| v == 331
    ||| v == 332
    ||| v == 350
    ||| v == 421
    ||| v == 425
    ||| v == 426
    ||| v == 450
    ||| v == 451
    ||| v == 452
    ||| v == 500
    ||| v == 501
    ||| v == 502
    ||| v == 503
    ||| v == 504
    ||| v == 530
    ||| v == 532
    ||| v == 550
    ||| v == 551
    ||| v == 552
    ||| v == 553
}

/// Whether `b` is an ASCII decimal digit.
pub open spec fn is_digit_byte(b: u8) -> bool {
    48 <= b <= 57
}

/// The numeric value of a sequence of three ASCII digit bytes.
pub open spec fn triplet_value(t: Seq<u8>) -> int
    recommends
        t.len() == 3,
{
    (t[0] - 48) * 100 + (t[1] - 48) * 10 + (t[2] - 48)
}

/// Whether `t` is exactly three ASCII decimal digits.
pub open spec fn is_digit_triplet(t: Seq<u8>) -> bool {
    t.len() == 3 && is_digit_byte(t[0]) && is_digit_byte(t[1]) && is_digit_byte(t[2])
}

/// A recognized reply code. Values come only out of [`Code::from_bytes`], so
/// every `Code` carries one of the table's three-digit values - in
/// particular, never zero.
#[derive(Clone, Copy, Debug, PartialEq, Eq, Structural, PartialOrd, Ord, Hash)]
pub struct Code(u16);

impl View for Code {
    type V = u16;

    closed spec fn view(&self) -> u16 {
        self.0
    }
}

impl Code {
    /// Whether this value could have come out of the table.
    pub open spec fn wf(&self) -> bool {
        is_known_code(self@ as int)
    }

    /// The numeric value of the code.
    pub fn value(&self) -> (v: u16)
        ensures
            v == self@,
    {
        self.0
    }

    /// Maps three ASCII digit bytes to the code they spell, failing on any
    /// triplet the table does not know about.
    pub fn from_bytes(bytes: [u8; 3]) -> (r: Result<Code, Error>)
        ensures
            is_digit_triplet(bytes@) && is_known_code(triplet_value(bytes@)) ==> (r matches Ok(c)
                && c@ == triplet_value(bytes@)),
            !(is_digit_triplet(bytes@) && is_known_code(triplet_value(bytes@))) ==> r == Err::<
                Code,
                Error,
            >(Error::InvalidCode(bytes)),
            r matches Ok(c) ==> c.wf(),
    {
        let b0 = bytes[0];
        let b1 = bytes[1];
        let b2 = bytes[2];
        if 48 <= b0 && b0 <= 57 && 48 <= b1 && b1 <= 57 && 48 <= b2 && b2 <= 57 {
            let v: u16 = (b0 - 48) as u16 * 100 + (b1 - 48) as u16 * 10 + (b2 - 48) as u16;
            if is_known_value(v) {
                Ok(Code(v))
            } else {
                Err(Error::InvalidCode(bytes))
            }
        } else {
            Err(Error::InvalidCode(bytes))
        }
    }
}

/// Runtime membership test matching [`is_known_code`].
fn is_known_value(v: u16) -> (r: bool)
    ensures
        r == is_known_code(v as int),
{
    match v {
        110 | 120 | 125 | 150 => true,
        200 | 211 | 212 | 213 | 214 | 215 | 220 | 221 | 225 | 226 | 227 | 230 | 250 | 257 => true,
        331 | 332 | 350 => true,
        421 | 425 | 426 | 450 | 451 | 452 => true,
        500 | 501 | 502 | 503 | 504 | 530 | 532 | 550 | 551 | 552 | 553 => true,
        _ => false,
    }
}

} // verus!
