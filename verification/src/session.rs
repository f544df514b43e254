//! The control-channel choreography as an explicit state machine.
//!
//! A [`Session`] never touches a socket. The driver that owns the control
//! connection feeds it one control line at a time through
//! [`Session::on_line`] and performs the [`Action`] handed back: write
//! command bytes, open or drain a data connection, or return to the caller.
//! Caller-initiated operations ([`Session::start_login`],
//! [`Session::start_list`], [`Session::start_put`]) arm the machine and
//! yield the first command to send.

use vstd::prelude::*;
use vstd::string::StringSliceAdditionalSpecFns;

use crate::code;
use crate::code::{is_digit_triplet, is_known_code, triplet_value, Code};
use crate::commands::{
    spec_verb_feat, spec_verb_list, spec_verb_mlsd, spec_verb_pasv, spec_verb_stor, spec_verb_type,
    spec_verb_user, spec_verb_pass, wire_bytes, Command, Feat, List, Mlsd, Pass, Pasv, Stor, Type,
    User,
};
use crate::error::Error;
use crate::parsers::{parse_features, parse_passive_mode, spec_features, spec_passive_mode};
use crate::response::{
    step_append, step_code, step_fails, step_state, ParsedResponseState, Response,
};
use crate::Config;

verus! {

/// Where the choreography stands.
pub enum Phase {
    /// The control connection was just opened; the greeting is awaited.
    AwaitGreeting,
    /// FEAT was sent; its reply is awaited.
    AwaitFeat,
    /// Connected but not yet authenticated.
    Idle,
    /// USER was sent; the held bytes are the encoded PASS command to send
    /// once the reply allows it.
    AwaitUser(Vec<u8>),
    /// PASS was sent; its reply is awaited.
    AwaitPass,
    /// Authenticated, no operation in flight.
    Ready,
    /// PASV was sent for a listing; the held bytes are the encoded MLSD or
    /// LIST command to send once the address arrives.
    AwaitPasvList(Vec<u8>),
    /// The listing command was sent and the data connection opened; the
    /// transfer-start reply is awaited.
    AwaitListStart,
    /// The listing data connection is being drained by the driver.
    ListData,
    /// The closing reply after a listing is awaited.
    AwaitListEnd,
    /// TYPE was sent before an upload; the held bytes are the encoded STOR
    /// command for later.
    AwaitTypeOkay(Vec<u8>),
    /// PASV was sent for an upload; the held bytes are the encoded STOR
    /// command to send once the address arrives.
    AwaitPasvStor(Vec<u8>),
    /// STOR was sent and the data connection opened; the transfer-start
    /// reply is awaited.
    AwaitStorStart,
    /// The upload data connection is being filled by the driver.
    StorData,
    /// The closing reply after an upload is awaited.
    AwaitStorEnd,
    /// A protocol error surfaced; the session must be discarded.
    Failed,
}

/// What the driver must do next.
pub enum Action {
    /// Read one more line from the control connection and feed it back in.
    ReadLine,
    /// Write these bytes on the control connection, then read reply lines.
    Send(Vec<u8>),
    /// Write these command bytes on the control connection, then open the
    /// data connection to the given host and port, then read reply lines.
    SendThenOpenData(Vec<u8>, [u8; 4], u16),
    /// Drain the data connection (the listing lines), close it, then call
    /// `data_finished`.
    ReceiveData,
    /// Copy the source bytes into the data connection, close it, then call
    /// `data_finished`.
    SendData,
    /// The operation in flight is complete; control returns to the caller.
    Done,
}

/// Whether the machine is waiting for (more of) a control reply.
pub open spec fn spec_awaiting(p: Phase) -> bool {
    match p {
        Phase::AwaitGreeting => true,
        Phase::AwaitFeat => true,
        Phase::AwaitUser(_) => true,
        Phase::AwaitPass => true,
        Phase::AwaitPasvList(_) => true,
        Phase::AwaitListStart => true,
        Phase::AwaitListEnd => true,
        Phase::AwaitTypeOkay(_) => true,
        Phase::AwaitPasvStor(_) => true,
        Phase::AwaitStorStart => true,
        Phase::AwaitStorEnd => true,
        _ => false,
    }
}

/// The codes each awaiting phase accepts; any other recognized code is a
/// choreography violation surfaced as `UnexpectedCode`.
pub open spec fn expected_code(p: Phase, v: int) -> bool {
    match p {
        Phase::AwaitGreeting => v == code::READY as int,
        Phase::AwaitFeat => v == code::SYSTEM_STATUS as int || v == code::UNRECOGNIZED_COMMAND as int
            || v == code::NOT_IMPLEMENTED as int,
        Phase::AwaitUser(_) => v == code::LOGGED_IN as int || v == code::PASSWORD_REQUIRED as int,
        Phase::AwaitPass => v == code::LOGGED_IN as int,
        Phase::AwaitPasvList(_) => v == code::ENTERING_PASSIVE_MODE as int,
        Phase::AwaitListStart => v == code::OPENING_DATA_CONNECTION as int,
        Phase::AwaitListEnd => v == code::CLOSING_DATA_CONNECTION as int
            || v == code::REQUESTED_FILE_ACTION_OKAY as int,
        Phase::AwaitTypeOkay(_) => v == code::COMMAND_OKAY as int,
        Phase::AwaitPasvStor(_) => v == code::ENTERING_PASSIVE_MODE as int,
        Phase::AwaitStorStart => v == code::DATA_CONNECTION_ALREADY_OPEN as int
            || v == code::OPENING_DATA_CONNECTION as int,
        Phase::AwaitStorEnd => v == code::CLOSING_DATA_CONNECTION as int
            || v == code::REQUESTED_FILE_ACTION_OKAY as int,
        _ => false,
    }
}

/// The name whose presence in the FEAT listing selects the extended
/// listing command.
pub open spec fn mlst_name() -> Seq<u8> {
    seq![77u8, 76u8, 83u8, 84u8]
}

/// Whether three code bytes spell a recognized reply code.
pub open spec fn valid_code(cb: Seq<u8>) -> bool {
    is_digit_triplet(cb) && is_known_code(triplet_value(cb))
}

/// The protocol actor: the current phase, the negotiated configuration,
/// and the in-progress reply parse with its message buffer.
pub struct Session {
    phase: Phase,
    config: Config,
    resp: Response,
    msg: Vec<u8>,
}

impl Session {
    /// The current phase.
    pub closed spec fn spec_phase(&self) -> Phase {
        self.phase
    }

    /// The negotiated configuration.
    pub closed spec fn spec_config(&self) -> Config {
        self.config
    }

    /// The in-progress reply parse.
    pub closed spec fn spec_resp(&self) -> Response {
        self.resp
    }

    /// The reply message accumulated so far.
    pub closed spec fn spec_msg(&self) -> Seq<u8> {
        self.msg@
    }

    /// The session's internal consistency: the parse cursor matches the
    /// message buffer, and no finished reply lingers.
    pub open spec fn wf(&self) -> bool {
        &&& self.spec_resp().spec_cursor() == self.spec_msg().len()
        &&& self.spec_resp().spec_state() != ParsedResponseState::Complete
    }

    /// The reply message as it stands after feeding `line`.
    pub open spec fn msg_after(&self, line: Seq<u8>) -> Seq<u8> {
        self.spec_msg() + step_append(self.spec_resp(), line)
    }

    /// The reply code bytes as they stand after feeding `line`.
    pub open spec fn code_after(&self, line: Seq<u8>) -> Seq<u8> {
        step_code(self.spec_resp(), line)
    }

    /// The numeric value those code bytes spell.
    pub open spec fn code_value_after(&self, line: Seq<u8>) -> int {
        triplet_value(self.code_after(line))
    }

    /// Whether feeding `line` finishes the reply.
    pub open spec fn completes(&self, line: Seq<u8>) -> bool {
        !step_fails(self.spec_resp(), line) && step_state(self.spec_resp(), line)
            == ParsedResponseState::Complete
    }

    /// Whether feeding `line` leaves the reply still in progress.
    pub open spec fn continues(&self, line: Seq<u8>) -> bool {
        !step_fails(self.spec_resp(), line) && step_state(self.spec_resp(), line)
            == ParsedResponseState::Partial
    }

    /// A fresh session over a just-opened control connection, waiting for
    /// the greeting: the driver's first step is to read a line.
    pub fn new() -> (s: Session)
        ensures
            s.wf(),
            s.spec_phase() matches Phase::AwaitGreeting,
            !s.spec_config().mlst_supported,
            s.spec_resp().spec_state() == ParsedResponseState::Empty,
            s.spec_msg() =~= Seq::<u8>::empty(),
    {
        Session {
            phase: Phase::AwaitGreeting,
            config: Config { mlst_supported: false },
            resp: Response::new(),
            msg: Vec::new(),
        }
    }

    /// The negotiated configuration, as the driver may inspect it.
    pub fn config(&self) -> (c: Config)
        ensures
            c == self.spec_config(),
    {
        self.config
    }

    /// Whether the machine is connected but not yet authenticated.
    pub fn is_idle(&self) -> (r: bool)
        ensures
            r == (self.spec_phase() matches Phase::Idle),
    {
        matches!(self.phase, Phase::Idle)
    }

    /// Whether the machine is authenticated with no operation in flight.
    pub fn is_ready(&self) -> (r: bool)
        ensures
            r == (self.spec_phase() matches Phase::Ready),
    {
        matches!(self.phase, Phase::Ready)
    }

    /// Whether a protocol error has made the session unusable.
    pub fn is_failed(&self) -> (r: bool)
        ensures
            r == (self.spec_phase() matches Phase::Failed),
    {
        matches!(self.phase, Phase::Failed)
    }

    /// Whether the machine is waiting for (more of) a control reply.
    pub fn expects_reply(&self) -> (r: bool)
        ensures
            r == spec_awaiting(self.spec_phase()),
    {
        match self.phase {
            Phase::AwaitGreeting => true,
            Phase::AwaitFeat => true,
            Phase::AwaitUser(_) => true,
            Phase::AwaitPass => true,
            Phase::AwaitPasvList(_) => true,
            Phase::AwaitListStart => true,
            Phase::AwaitListEnd => true,
            Phase::AwaitTypeOkay(_) => true,
            Phase::AwaitPasvStor(_) => true,
            Phase::AwaitStorStart => true,
            Phase::AwaitStorEnd => true,
            _ => false,
        }
    }

    /// Makes the session unusable after a protocol error.
    fn fail(&mut self)
        ensures
            final(self).wf(),
            final(self).spec_phase() matches Phase::Failed,
            final(self).spec_config() == old(self).spec_config(),
    {
        self.phase = Phase::Failed;
        self.resp = Response::new();
        self.msg.clear();
    }

    /// Clears the reply parse for the next reply.
    fn reset_reply(&mut self)
        ensures
            final(self).wf(),
            final(self).spec_phase() == old(self).spec_phase(),
            final(self).spec_config() == old(self).spec_config(),
            final(self).spec_resp().spec_state() == ParsedResponseState::Empty,
            final(self).spec_msg() =~= Seq::<u8>::empty(),
    {
        self.resp = Response::new();
        self.msg.clear();
    }

    /// Fails the session and surfaces the choreography violation.
    fn fail_unexpected(&mut self, c: Code) -> (r: Result<Action, Error>)
        ensures
            final(self).wf(),
            final(self).spec_phase() matches Phase::Failed,
            final(self).spec_config() == old(self).spec_config(),
            r == Err::<Action, Error>(Error::UnexpectedCode(c)),
    {
        self.fail();
        Err(Error::UnexpectedCode(c))
    }

    /// Arms a login: yields the encoded USER command to send, and holds the
    /// encoded PASS command for when USER's reply allows it.
    pub fn start_login(&mut self, user: &str, pass: &str) -> (a: Action)
        requires
            old(self).wf(),
            old(self).spec_phase() matches Phase::Idle,
        ensures
            final(self).wf(),
            final(self).spec_config() == old(self).spec_config(),
            final(self).spec_resp() == old(self).spec_resp(),
            final(self).spec_msg() == old(self).spec_msg(),
            a matches Action::Send(v) && v@ == wire_bytes(
                spec_verb_user(),
                seq![user.spec_bytes()],
            ),
            final(self).spec_phase() matches Phase::AwaitUser(p) && p@ == wire_bytes(
                spec_verb_pass(),
                seq![pass.spec_bytes()],
            ),
    {
        let user_cmd = User::new(user);
        let mut u: Vec<u8> = Vec::new();
        user_cmd.encode(&mut u);
        let pass_cmd = Pass::new(pass);
        let mut p: Vec<u8> = Vec::new();
        pass_cmd.encode(&mut p);
        proof {
            assert(u@ =~= wire_bytes(spec_verb_user(), seq![user.spec_bytes()]));
            assert(p@ =~= wire_bytes(spec_verb_pass(), seq![pass.spec_bytes()]));
        }
        self.phase = Phase::AwaitUser(p);
        Action::Send(u)
    }

    /// Arms a directory listing of `path`: yields the encoded PASV command
    /// to send, and holds the listing command - MLSD when the server
    /// advertised the extension, LIST otherwise - for when the passive
    /// address arrives.
    pub fn start_list(&mut self, path: &str) -> (a: Action)
        requires
            old(self).wf(),
            old(self).spec_phase() matches Phase::Ready,
        ensures
            final(self).wf(),
            final(self).spec_config() == old(self).spec_config(),
            final(self).spec_resp() == old(self).spec_resp(),
            final(self).spec_msg() == old(self).spec_msg(),
            a matches Action::Send(v) && v@ == wire_bytes(spec_verb_pasv(), Seq::empty()),
            old(self).spec_config().mlst_supported ==> (final(self).spec_phase()
                matches Phase::AwaitPasvList(c) && c@ == wire_bytes(
                spec_verb_mlsd(),
                seq![path.spec_bytes()],
            )),
            !old(self).spec_config().mlst_supported ==> (final(self).spec_phase()
                matches Phase::AwaitPasvList(c) && c@ == wire_bytes(
                spec_verb_list(),
                seq![path.spec_bytes()],
            )),
    {
        let mut cmd: Vec<u8> = Vec::new();
        if self.config.mlst_supported {
            let c = Mlsd::new(path);
            c.encode(&mut cmd);
            proof {
                assert(cmd@ =~= wire_bytes(spec_verb_mlsd(), seq![path.spec_bytes()]));
            }
        } else {
            let c = List::new(path);
            c.encode(&mut cmd);
            proof {
                assert(cmd@ =~= wire_bytes(spec_verb_list(), seq![path.spec_bytes()]));
            }
        }
        let pasv = Pasv;
        let mut v: Vec<u8> = Vec::new();
        pasv.encode(&mut v);
        proof {
            assert(v@ =~= wire_bytes(spec_verb_pasv(), Seq::empty()));
        }
        self.phase = Phase::AwaitPasvList(cmd);
        Action::Send(v)
    }

    /// Arms an upload to `path`: yields the encoded TYPE Image command to
    /// send, and holds the encoded STOR command for later.
    pub fn start_put(&mut self, path: &str) -> (a: Action)
        requires
            old(self).wf(),
            old(self).spec_phase() matches Phase::Ready,
        ensures
            final(self).wf(),
            final(self).spec_config() == old(self).spec_config(),
            final(self).spec_resp() == old(self).spec_resp(),
            final(self).spec_msg() == old(self).spec_msg(),
            a matches Action::Send(v) && v@ == wire_bytes(spec_verb_type(), seq![seq![73u8]]),
            final(self).spec_phase() matches Phase::AwaitTypeOkay(c) && c@ == wire_bytes(
                spec_verb_stor(),
                seq![path.spec_bytes()],
            ),
    {
        let stor = Stor::new(path);
        let mut cmd: Vec<u8> = Vec::new();
        stor.encode(&mut cmd);
        proof {
            assert(cmd@ =~= wire_bytes(spec_verb_stor(), seq![path.spec_bytes()]));
        }
        let ty = Type::Image;
        let mut v: Vec<u8> = Vec::new();
        ty.encode(&mut v);
        proof {
            assert(v@ =~= wire_bytes(spec_verb_type(), seq![seq![73u8]]));
        }
        self.phase = Phase::AwaitTypeOkay(cmd);
        Action::Send(v)
    }

    /// Reports that the data connection was fully drained or filled and
    /// closed; the machine then waits for the closing control reply.
    pub fn data_finished(&mut self) -> (a: Action)
        requires
            old(self).wf(),
            old(self).spec_phase() matches Phase::ListData || old(self).spec_phase()
                matches Phase::StorData,
        ensures
            final(self).wf(),
            final(self).spec_config() == old(self).spec_config(),
            final(self).spec_resp() == old(self).spec_resp(),
            final(self).spec_msg() == old(self).spec_msg(),
            a matches Action::ReadLine,
            old(self).spec_phase() matches Phase::ListData ==> final(self).spec_phase()
                matches Phase::AwaitListEnd,
            old(self).spec_phase() matches Phase::StorData ==> final(self).spec_phase()
                matches Phase::AwaitStorEnd,
    {
        if matches!(self.phase, Phase::ListData) {
            self.phase = Phase::AwaitListEnd;
        } else {
            self.phase = Phase::AwaitStorEnd;
        }
        Action::ReadLine
    }

    /// Feeds one control line to the machine.
    ///
    /// While the reply is incomplete the answer is `ReadLine`. Once it
    /// completes, its code is checked against the current phase - any
    /// recognized but unexpected code fails the session with
    /// `UnexpectedCode` - and the machine advances: the greeting leads to
    /// FEAT; the FEAT reply fixes the configuration; USER's reply releases
    /// the held PASS; a passive-mode reply yields the address with the held
    /// transfer command; transfer-start replies hand the data connection to
    /// the driver; closing replies finish the operation.
    pub fn on_line(&mut self, line: &[u8]) -> (r: Result<Action, Error>)
        requires
            old(self).wf(),
            spec_awaiting(old(self).spec_phase()),
        ensures
            final(self).wf(),
            r is Err ==> final(self).spec_phase() matches Phase::Failed,
            step_fails(old(self).spec_resp(), line@) ==> r == Err::<Action, Error>(
                Error::IncompleteResponse,
            ),
            old(self).continues(line@) ==> {
                &&& r matches Ok(a)
                &&& a matches Action::ReadLine
                &&& final(self).spec_phase() == old(self).spec_phase()
                &&& final(self).spec_config() == old(self).spec_config()
                &&& final(self).spec_resp().spec_state() == ParsedResponseState::Partial
                &&& final(self).spec_resp().spec_code()@ == old(self).code_after(line@)
                &&& final(self).spec_msg() == old(self).msg_after(line@)
            },
            old(self).completes(line@) && r is Ok ==> {
                &&& final(self).spec_resp().spec_state() == ParsedResponseState::Empty
                &&& final(self).spec_msg() =~= Seq::<u8>::empty()
            },
            old(self).completes(line@) && !valid_code(old(self).code_after(line@)) ==> (r matches
                Err(e) && e matches Error::InvalidCode(b) && b@ == old(self).code_after(line@)),
            old(self).completes(line@) && valid_code(old(self).code_after(line@)) && !expected_code(
                old(self).spec_phase(),
                old(self).code_value_after(line@),
            ) ==> (r matches Err(e) && e matches Error::UnexpectedCode(c) && c@ as int
                == old(self).code_value_after(line@)),
            !(old(self).spec_phase() matches Phase::AwaitFeat && old(self).completes(line@)
                && old(self).code_value_after(line@) == code::SYSTEM_STATUS as int)
                ==> final(self).spec_config() == old(self).spec_config(),
            old(self).spec_phase() matches Phase::AwaitGreeting ==> (old(self).completes(line@)
                && valid_code(old(self).code_after(line@)) && old(self).code_value_after(line@)
                == code::READY as int ==> {
                &&& r matches Ok(a)
                &&& a matches Action::Send(v)
                &&& v@ == wire_bytes(spec_verb_feat(), Seq::empty())
                &&& final(self).spec_phase() matches Phase::AwaitFeat
            }),
            old(self).spec_phase() matches Phase::AwaitFeat ==> (old(self).completes(line@)
                && valid_code(old(self).code_after(line@)) ==> {
                &&& old(self).code_value_after(line@) == code::SYSTEM_STATUS as int ==> {
                    &&& r matches Ok(a)
                    &&& a matches Action::Done
                    &&& final(self).spec_phase() matches Phase::Idle
                    &&& final(self).spec_config().mlst_supported == spec_features(
                        old(self).msg_after(line@),
                    ).contains_key(mlst_name())
                }
                &&& (old(self).code_value_after(line@) == code::UNRECOGNIZED_COMMAND as int
                    || old(self).code_value_after(line@) == code::NOT_IMPLEMENTED as int) ==> {
                    &&& r matches Ok(a)
                    &&& a matches Action::Done
                    &&& final(self).spec_phase() matches Phase::Idle
                }
            }),
            old(self).spec_phase() matches Phase::AwaitUser(pc) ==> (old(self).completes(line@)
                && valid_code(old(self).code_after(line@)) && (old(self).code_value_after(line@)
                == code::LOGGED_IN as int || old(self).code_value_after(line@)
                == code::PASSWORD_REQUIRED as int) ==> {
                &&& r matches Ok(a)
                &&& a matches Action::Send(v)
                &&& v == pc
                &&& final(self).spec_phase() matches Phase::AwaitPass
            }),
            old(self).spec_phase() matches Phase::AwaitPass ==> (old(self).completes(line@)
                && valid_code(old(self).code_after(line@)) && old(self).code_value_after(line@)
                == code::LOGGED_IN as int ==> {
                &&& r matches Ok(a)
                &&& a matches Action::Done
                &&& final(self).spec_phase() matches Phase::Ready
            }),
            old(self).spec_phase() matches Phase::AwaitPasvList(cmd) ==> (old(self).completes(line@)
                && valid_code(old(self).code_after(line@)) && old(self).code_value_after(line@)
                == code::ENTERING_PASSIVE_MODE as int ==> {
                &&& spec_passive_mode(old(self).msg_after(line@)) matches Some(ad) ==> {
                    &&& r matches Ok(a)
                    &&& a matches Action::SendThenOpenData(v, h, p)
                    &&& v == cmd
                    &&& h@ == ad.0
                    &&& p == ad.1
                    &&& final(self).spec_phase() matches Phase::AwaitListStart
                }
                &&& spec_passive_mode(old(self).msg_after(line@)) is None ==> r == Err::<
                    Action,
                    Error,
                >(Error::InvalidPassiveModeReply)
            }),
            old(self).spec_phase() matches Phase::AwaitListStart ==> (old(self).completes(line@)
                && valid_code(old(self).code_after(line@)) && old(self).code_value_after(line@)
                == code::OPENING_DATA_CONNECTION as int ==> {
                &&& r matches Ok(a)
                &&& a matches Action::ReceiveData
                &&& final(self).spec_phase() matches Phase::ListData
            }),
            old(self).spec_phase() matches Phase::AwaitListEnd ==> (old(self).completes(line@)
                && valid_code(old(self).code_after(line@)) && (old(self).code_value_after(line@)
                == code::CLOSING_DATA_CONNECTION as int || old(self).code_value_after(line@)
                == code::REQUESTED_FILE_ACTION_OKAY as int) ==> {
                &&& r matches Ok(a)
                &&& a matches Action::Done
                &&& final(self).spec_phase() matches Phase::Ready
            }),
            old(self).spec_phase() matches Phase::AwaitTypeOkay(cmd) ==> (old(self).completes(line@)
                && valid_code(old(self).code_after(line@)) && old(self).code_value_after(line@)
                == code::COMMAND_OKAY as int ==> {
                &&& r matches Ok(a)
                &&& a matches Action::Send(v)
                &&& v@ == wire_bytes(spec_verb_pasv(), Seq::empty())
                &&& final(self).spec_phase() matches Phase::AwaitPasvStor(c2)
                &&& c2 == cmd
            }),
            old(self).spec_phase() matches Phase::AwaitPasvStor(cmd) ==> (old(self).completes(line@)
                && valid_code(old(self).code_after(line@)) && old(self).code_value_after(line@)
                == code::ENTERING_PASSIVE_MODE as int ==> {
                &&& spec_passive_mode(old(self).msg_after(line@)) matches Some(ad) ==> {
                    &&& r matches Ok(a)
                    &&& a matches Action::SendThenOpenData(v, h, p)
                    &&& v == cmd
                    &&& h@ == ad.0
                    &&& p == ad.1
                    &&& final(self).spec_phase() matches Phase::AwaitStorStart
                }
                &&& spec_passive_mode(old(self).msg_after(line@)) is None ==> r == Err::<
                    Action,
                    Error,
                >(Error::InvalidPassiveModeReply)
            }),
            old(self).spec_phase() matches Phase::AwaitStorStart ==> (old(self).completes(line@)
                && valid_code(old(self).code_after(line@)) && (old(self).code_value_after(line@)
                == code::DATA_CONNECTION_ALREADY_OPEN as int || old(self).code_value_after(line@)
                == code::OPENING_DATA_CONNECTION as int) ==> {
                &&& r matches Ok(a)
                &&& a matches Action::SendData
                &&& final(self).spec_phase() matches Phase::StorData
            }),
            old(self).spec_phase() matches Phase::AwaitStorEnd ==> (old(self).completes(line@)
                && valid_code(old(self).code_after(line@)) && (old(self).code_value_after(line@)
                == code::CLOSING_DATA_CONNECTION as int || old(self).code_value_after(line@)
                == code::REQUESTED_FILE_ACTION_OKAY as int) ==> {
                &&& r matches Ok(a)
                &&& a matches Action::Done
                &&& final(self).spec_phase() matches Phase::Ready
            }),
    {
        let st = match self.resp.read_bytes(line, &mut self.msg) {
            Ok(s) => s,
            Err(e) => {
                self.fail();
                return Err(e);
            },
        };
        match st {
            ParsedResponseState::Empty => {
                // read_bytes never reports Empty: a failing open line is an
                // error, and every accepted line advances the state.
                proof {
                    assert(false);
                }
                self.fail();
                Err(Error::IncompleteResponse)
            },
            ParsedResponseState::Partial => Ok(Action::ReadLine),
            ParsedResponseState::Complete => {
                let c = match self.resp.code() {
                    Ok(c) => c,
                    Err(e) => {
                        self.fail();
                        return Err(e);
                    },
                };
                let v = c.value();
                let mut ph = Phase::Failed;
                core::mem::swap(&mut ph, &mut self.phase);
                match ph {
                    Phase::AwaitGreeting => {
                        if v == code::READY {
                            let mut out: Vec<u8> = Vec::new();
                            let feat = Feat;
                            feat.encode(&mut out);
                            proof {
                                assert(out@ =~= wire_bytes(spec_verb_feat(), Seq::empty()));
                            }
                            self.reset_reply();
                            self.phase = Phase::AwaitFeat;
                            Ok(Action::Send(out))
                        } else {
                            self.fail_unexpected(c)
                        }
                    },
                    Phase::AwaitFeat => {
                        if v == code::SYSTEM_STATUS {
                            let feats = parse_features(self.msg.as_slice());
                            let mut mlst: Vec<u8> = Vec::new();
                            mlst.push(77);
                            mlst.push(76);
                            mlst.push(83);
                            mlst.push(84);
                            proof {
                                assert(mlst@ =~= mlst_name());
                            }
                            let supported = feats.contains(mlst.as_slice());
                            self.config = Config { mlst_supported: supported };
                            self.reset_reply();
                            self.phase = Phase::Idle;
                            Ok(Action::Done)
                        } else if v == code::UNRECOGNIZED_COMMAND || v == code::NOT_IMPLEMENTED {
                            self.reset_reply();
                            self.phase = Phase::Idle;
                            Ok(Action::Done)
                        } else {
                            self.fail_unexpected(c)
                        }
                    },
                    Phase::AwaitUser(pass_cmd) => {
                        if v == code::LOGGED_IN || v == code::PASSWORD_REQUIRED {
                            self.reset_reply();
                            self.phase = Phase::AwaitPass;
                            Ok(Action::Send(pass_cmd))
                        } else {
                            self.fail_unexpected(c)
                        }
                    },
                    Phase::AwaitPass => {
                        if v == code::LOGGED_IN {
                            self.reset_reply();
                            self.phase = Phase::Ready;
                            Ok(Action::Done)
                        } else {
                            self.fail_unexpected(c)
                        }
                    },
                    Phase::AwaitPasvList(cmd) => {
                        if v == code::ENTERING_PASSIVE_MODE {
                            match parse_passive_mode(self.msg.as_slice()) {
                                Ok(addr) => {
                                    self.reset_reply();
                                    self.phase = Phase::AwaitListStart;
                                    Ok(Action::SendThenOpenData(cmd, addr.0, addr.1))
                                },
                                Err(e) => {
                                    self.fail();
                                    Err(e)
                                },
                            }
                        } else {
                            self.fail_unexpected(c)
                        }
                    },
                    Phase::AwaitListStart => {
                        if v == code::OPENING_DATA_CONNECTION {
                            self.reset_reply();
                            self.phase = Phase::ListData;
                            Ok(Action::ReceiveData)
                        } else {
                            self.fail_unexpected(c)
                        }
                    },
                    Phase::AwaitListEnd => {
                        if v == code::CLOSING_DATA_CONNECTION || v
                            == code::REQUESTED_FILE_ACTION_OKAY {
                            self.reset_reply();
                            self.phase = Phase::Ready;
                            Ok(Action::Done)
                        } else {
                            self.fail_unexpected(c)
                        }
                    },
                    Phase::AwaitTypeOkay(stor_cmd) => {
                        if v == code::COMMAND_OKAY {
                            let pasv = Pasv;
                            let mut out: Vec<u8> = Vec::new();
                            pasv.encode(&mut out);
                            proof {
                                assert(out@ =~= wire_bytes(spec_verb_pasv(), Seq::empty()));
                            }
                            self.reset_reply();
                            self.phase = Phase::AwaitPasvStor(stor_cmd);
                            Ok(Action::Send(out))
                        } else {
                            self.fail_unexpected(c)
                        }
                    },
                    Phase::AwaitPasvStor(cmd) => {
                        if v == code::ENTERING_PASSIVE_MODE {
                            match parse_passive_mode(self.msg.as_slice()) {
                                Ok(addr) => {
                                    self.reset_reply();
                                    self.phase = Phase::AwaitStorStart;
                                    Ok(Action::SendThenOpenData(cmd, addr.0, addr.1))
                                },
                                Err(e) => {
                                    self.fail();
                                    Err(e)
                                },
                            }
                        } else {
                            self.fail_unexpected(c)
                        }
                    },
                    Phase::AwaitStorStart => {
                        if v == code::DATA_CONNECTION_ALREADY_OPEN || v
                            == code::OPENING_DATA_CONNECTION {
                            self.reset_reply();
                            self.phase = Phase::StorData;
                            Ok(Action::SendData)
                        } else {
                            self.fail_unexpected(c)
                        }
                    },
                    Phase::AwaitStorEnd => {
                        if v == code::CLOSING_DATA_CONNECTION || v
                            == code::REQUESTED_FILE_ACTION_OKAY {
                            self.reset_reply();
                            self.phase = Phase::Ready;
                            Ok(Action::Done)
                        } else {
                            self.fail_unexpected(c)
                        }
                    },
                    _ => {
                        // Excluded by the requires: only awaiting phases
                        // accept a line.
                        proof {
                            assert(false);
                        }
                        self.fail();
                        Err(Error::IncompleteResponse)
                    },
                }
            },
        }
    }
}

} // verus!
