//! Incremental assembly of (possibly multi-line) replies.
//!
//! The caller reads one already line-delimited chunk at a time from the
//! control connection and feeds it to [`Response::read_bytes`], which
//! accumulates the message text into a caller-supplied buffer and tracks the
//! parse state, until `Complete` is observed.

use vstd::prelude::*;

use crate::code::{is_digit_triplet, is_known_code, triplet_value, Code};
use crate::commands::{append_range, CR, LF, SP};
use crate::error::Error;
use crate::parsers;

verus! {

/// A passive-mode data address: host quartet and port.
pub type Addr = ([u8; 4], u16);

/// Progress of one reply parse.
#[derive(Clone, Copy, Debug, PartialEq, Eq, Structural)]
pub enum ParsedResponseState {
    /// No line consumed yet.
    Empty,
    /// A multi-line reply is in progress; continuation lines are expected.
    Partial,
    /// The reply is finished; further input is ignored.
    Complete,
}

impl Default for ParsedResponseState {
    fn default() -> (s: ParsedResponseState)
        ensures
            s == ParsedResponseState::Empty,
    {
        ParsedResponseState::Empty
    }
}

/// `s` with one trailing CRLF pair removed, if it ends in one.
pub open spec fn strip_crlf(s: Seq<u8>) -> Seq<u8> {
    if s.len() >= 2 && s[s.len() - 2] == CR && s[s.len() - 1] == LF {
        s.take(s.len() - 2)
    } else {
        s
    }
}

/// Whether `line` can open a reply: three ASCII digits, then a space
/// (single-line reply) or a dash (first line of a multi-line reply).
pub open spec fn open_line(line: Seq<u8>) -> bool {
    line.len() >= 4 && is_digit_triplet(line.take(3)) && (line[3] == SP || line[3] == 45)
}

/// Whether `line` closes a multi-line reply whose recorded code is `code`:
/// the same three digits, then a space.
pub open spec fn closing_line(line: Seq<u8>, code: Seq<u8>) -> bool {
    line.len() >= 4 && is_digit_triplet(line.take(3)) && line.take(3) == code && line[3] == SP
}

/// Whether `line` looks like another opening line for the same `code`:
/// the same three digits, then a dash. Treated as ordinary body text.
pub open spec fn dashed_line(line: Seq<u8>, code: Seq<u8>) -> bool {
    line.len() >= 4 && is_digit_triplet(line.take(3)) && line.take(3) == code && line[3] == 45
}

/// Whether feeding `line` to a parse in state `resp` fails: the only
/// failing step is a line that does not open a reply at `Empty`.
pub open spec fn step_fails(resp: Response, line: Seq<u8>) -> bool {
    resp.spec_state() == ParsedResponseState::Empty && !open_line(line)
}

/// The parse state after feeding `line`, when the step does not fail.
pub open spec fn step_state(resp: Response, line: Seq<u8>) -> ParsedResponseState {
    match resp.spec_state() {
        ParsedResponseState::Empty => if open_line(line) {
            if line[3] == SP {
                ParsedResponseState::Complete
            } else {
                ParsedResponseState::Partial
            }
        } else {
            ParsedResponseState::Empty
        },
        ParsedResponseState::Partial => if closing_line(line, resp.spec_code()@) {
            ParsedResponseState::Complete
        } else {
            ParsedResponseState::Partial
        },
        ParsedResponseState::Complete => ParsedResponseState::Complete,
    }
}

/// The code bytes recorded after feeding `line`.
pub open spec fn step_code(resp: Response, line: Seq<u8>) -> Seq<u8> {
    if resp.spec_state() == ParsedResponseState::Empty && open_line(line) {
        line.take(3)
    } else {
        resp.spec_code()@
    }
}

/// The message bytes `line` contributes, when the step does not fail.
pub open spec fn step_append(resp: Response, line: Seq<u8>) -> Seq<u8> {
    match resp.spec_state() {
        ParsedResponseState::Empty => if open_line(line) {
            if line[3] == SP {
                strip_crlf(line.skip(4))
            } else {
                strip_crlf(line.skip(4)) + seq![LF]
            }
        } else {
            Seq::empty()
        },
        ParsedResponseState::Partial => if closing_line(line, resp.spec_code()@) {
            strip_crlf(line.skip(4))
        } else if dashed_line(line, resp.spec_code()@) {
            strip_crlf(line.skip(4)) + seq![LF]
        } else {
            strip_crlf(line) + seq![LF]
        },
        ParsedResponseState::Complete => Seq::empty(),
    }
}

/// Parser state for one reply: the code bytes recorded so far, the parse
/// progress, and a cursor counting the message bytes written to the
/// caller's output buffer.
pub struct Response {
    code: [u8; 3],
    state: ParsedResponseState,
    cursor: usize,
}

impl Response {
    /// The three code bytes recorded so far (zeroes before any line).
    pub closed spec fn spec_code(&self) -> [u8; 3] {
        self.code
    }

    /// The parse progress.
    pub closed spec fn spec_state(&self) -> ParsedResponseState {
        self.state
    }

    /// How many message bytes have been written to the output buffer.
    pub closed spec fn spec_cursor(&self) -> int {
        self.cursor as int
    }

    /// A fresh parser: no line consumed, nothing written.
    pub fn new() -> (r: Response)
        ensures
            r.spec_state() == ParsedResponseState::Empty,
            r.spec_cursor() == 0,
            r.spec_code()@ =~= seq![0u8, 0u8, 0u8],
    {
        Response { code: [0; 3], state: ParsedResponseState::Empty, cursor: 0 }
    }

    /// The recorded code bytes reinterpreted through the code table; fails
    /// with `InvalidCode` exactly when they are not a recognized code.
    pub fn code(&self) -> (r: Result<Code, Error>)
        ensures
            is_digit_triplet(self.spec_code()@) && is_known_code(triplet_value(self.spec_code()@))
                ==> (r matches Ok(c) && c@ == triplet_value(self.spec_code()@)),
            !(is_digit_triplet(self.spec_code()@) && is_known_code(
                triplet_value(self.spec_code()@),
            )) ==> r == Err::<Code, Error>(Error::InvalidCode(self.spec_code())),
            r matches Ok(c) ==> c.wf(),
    {
        Code::from_bytes(self.code)
    }

    /// The message text assembled so far: exactly the first `cursor` bytes
    /// of the output buffer the parse has been writing into.
    pub fn message<'a>(&self, input: &'a [u8]) -> (r: &'a [u8])
        requires
            self.spec_cursor() <= input@.len(),
        ensures
            r@ == input@.take(self.spec_cursor()),
    {
        vstd::slice::slice_subrange(input, 0, self.cursor)
    }

    /// Feeds one line (CRLF already split off by the line reader, though a
    /// trailing CRLF is stripped again here) into the parse, appending
    /// message text to `output` and advancing the state machine.
    ///
    /// From `Empty`, a line must open a reply or the parse fails with
    /// `IncompleteResponse` and nothing changes. From `Partial`, a closing
    /// line finishes the reply, and anything else - including a dashed line
    /// repeating the code - is body text followed by an inserted newline.
    /// `Complete` is terminal: further input is ignored and the output
    /// buffer is not touched again.
    pub fn read_bytes(&mut self, input: &[u8], output: &mut Vec<u8>) -> (r: Result<
        ParsedResponseState,
        Error,
    >)
        requires
            old(self).spec_cursor() == old(output)@.len(),
        ensures
            final(self).spec_cursor() == final(output)@.len(),
            old(self).spec_state() == ParsedResponseState::Complete ==> {
                &&& *final(self) == *old(self)
                &&& final(output)@ == old(output)@
                &&& r == Ok::<ParsedResponseState, Error>(ParsedResponseState::Complete)
            },
            old(self).spec_state() == ParsedResponseState::Empty && !open_line(input@) ==> {
                &&& *final(self) == *old(self)
                &&& final(output)@ == old(output)@
                &&& r == Err::<ParsedResponseState, Error>(Error::IncompleteResponse)
            },
            old(self).spec_state() == ParsedResponseState::Empty && open_line(input@)
                && input@[3] == SP ==> {
                &&& final(self).spec_state() == ParsedResponseState::Complete
                &&& final(self).spec_code()@ == input@.take(3)
                &&& final(output)@ == old(output)@ + strip_crlf(input@.skip(4))
                &&& r == Ok::<ParsedResponseState, Error>(ParsedResponseState::Complete)
            },
            old(self).spec_state() == ParsedResponseState::Empty && open_line(input@)
                && input@[3] == 45 ==> {
                &&& final(self).spec_state() == ParsedResponseState::Partial
                &&& final(self).spec_code()@ == input@.take(3)
                &&& final(output)@ == old(output)@ + strip_crlf(input@.skip(4)) + seq![LF]
                &&& r == Ok::<ParsedResponseState, Error>(ParsedResponseState::Partial)
            },
            old(self).spec_state() == ParsedResponseState::Partial ==> final(self).spec_code()
                == old(self).spec_code(),
            old(self).spec_state() == ParsedResponseState::Partial && closing_line(
                input@,
                old(self).spec_code()@,
            ) ==> {
                &&& final(self).spec_state() == ParsedResponseState::Complete
                &&& final(output)@ == old(output)@ + strip_crlf(input@.skip(4))
                &&& r == Ok::<ParsedResponseState, Error>(ParsedResponseState::Complete)
            },
            old(self).spec_state() == ParsedResponseState::Partial && dashed_line(
                input@,
                old(self).spec_code()@,
            ) ==> {
                &&& final(self).spec_state() == ParsedResponseState::Partial
                &&& final(output)@ == old(output)@ + strip_crlf(input@.skip(4)) + seq![LF]
                &&& r == Ok::<ParsedResponseState, Error>(ParsedResponseState::Partial)
            },
            old(self).spec_state() == ParsedResponseState::Partial && !closing_line(
                input@,
                old(self).spec_code()@,
            ) && !dashed_line(input@, old(self).spec_code()@) ==> {
                &&& final(self).spec_state() == ParsedResponseState::Partial
                &&& final(output)@ == old(output)@ + strip_crlf(input@) + seq![LF]
                &&& r == Ok::<ParsedResponseState, Error>(ParsedResponseState::Partial)
            },
    {
        match self.state {
            ParsedResponseState::Empty => {
                if input.len() >= 4 {
                    let b0 = *vstd::slice::slice_index_get(input, 0);
                    let b1 = *vstd::slice::slice_index_get(input, 1);
                    let b2 = *vstd::slice::slice_index_get(input, 2);
                    let b3 = *vstd::slice::slice_index_get(input, 3);
                    let digits = 48 <= b0 && b0 <= 57 && 48 <= b1 && b1 <= 57 && 48 <= b2 && b2
                        <= 57;
                    proof {
                        assert(input@.take(3)[0] == input@[0]);
                        assert(input@.take(3)[1] == input@[1]);
                        assert(input@.take(3)[2] == input@[2]);
                    }
                    if digits && (b3 == SP || b3 == 45) {
                        self.code = [b0, b1, b2];
                        append_stripped(output, input, 4);
                        if b3 == 45 {
                            output.push(LF);
                            self.state = ParsedResponseState::Partial;
                        } else {
                            self.state = ParsedResponseState::Complete;
                        }
                        self.cursor = output.len();
                        proof {
                            assert(self.spec_code()@ =~= input@.take(3));
                        }
                    } else {
                        return Err(Error::IncompleteResponse);
                    }
                } else {
                    return Err(Error::IncompleteResponse);
                }
            },
            ParsedResponseState::Partial => {
                let mut matched_code = false;
                let mut op: u8 = 0;
                if input.len() >= 4 {
                    let b0 = *vstd::slice::slice_index_get(input, 0);
                    let b1 = *vstd::slice::slice_index_get(input, 1);
                    let b2 = *vstd::slice::slice_index_get(input, 2);
                    op = *vstd::slice::slice_index_get(input, 3);
                    let digits = 48 <= b0 && b0 <= 57 && 48 <= b1 && b1 <= 57 && 48 <= b2 && b2
                        <= 57;
                    if digits && b0 == self.code[0] && b1 == self.code[1] && b2 == self.code[2] {
                        matched_code = true;
                    }
                    proof {
                        assert(input@.take(3)[0] == input@[0]);
                        assert(input@.take(3)[1] == input@[1]);
                        assert(input@.take(3)[2] == input@[2]);
                        assert(matched_code ==> input@.take(3) =~= self.spec_code()@);
                        assert(input@.take(3) == self.spec_code()@ && is_digit_triplet(
                            input@.take(3),
                        ) ==> matched_code);
                    }
                }
                if matched_code && op == SP {
                    append_stripped(output, input, 4);
                    self.state = ParsedResponseState::Complete;
                } else if matched_code && op == 45 {
                    append_stripped(output, input, 4);
                    output.push(LF);
                } else {
                    append_stripped(output, input, 0);
                    output.push(LF);
                }
                self.cursor = output.len();
            },
            ParsedResponseState::Complete => {},
        }
        Ok(self.state)
    }
}

impl Default for Response {
    fn default() -> (r: Response)
        ensures
            r.spec_state() == ParsedResponseState::Empty,
            r.spec_cursor() == 0,
            r.spec_code()@ =~= seq![0u8, 0u8, 0u8],
    {
        Response::new()
    }
}

/// Appends `input[from..]` to `output`, with one trailing CRLF stripped.
fn append_stripped(output: &mut Vec<u8>, input: &[u8], from: usize)
    requires
        from <= input@.len(),
    ensures
        final(output)@ == old(output)@ + strip_crlf(input@.skip(from as int)),
{
    let len = input.len();
    let end = if len >= 2 && len - 2 >= from && *vstd::slice::slice_index_get(input, len - 2) == CR
        && *vstd::slice::slice_index_get(input, len - 1) == LF {
        len - 2
    } else {
        len
    };
    append_range(output, input, from, end);
    proof {
        assert(input@.subrange(from as int, end as int) =~= strip_crlf(input@.skip(from as int)));
    }
}

/// Reinterpreting a reply's message bytes as a passive-mode address.
pub trait ResponseExt {
    /// Decodes the `(h1,h2,h3,h4,p1,p2)` tuple out of a passive-mode
    /// reply's message text.
    fn parse_passive_mode(&mut self, input: &[u8]) -> (r: Result<Addr, Error>)
        ensures
            parsers::spec_passive_mode(input@) matches Some(a) ==> (r matches Ok(addr) && addr.0@
                == a.0 && addr.1 == a.1),
            parsers::spec_passive_mode(input@) is None ==> r == Err::<Addr, Error>(
                Error::InvalidPassiveModeReply,
            ),
    ;
}

impl ResponseExt for Response {
    fn parse_passive_mode(&mut self, input: &[u8]) -> (r: Result<Addr, Error>) {
        parsers::parse_passive_mode(input)
    }
}

} // verus!
