//! Typed commands and their exact-size wire encoding.
//!
//! Every command serializes as the four-byte verb, then one space followed by
//! the raw bytes of each parameter, terminated by CRLF. Parameters are not
//! escaped: parameters holding control characters are outside this client's
//! scope.

use vstd::prelude::*;
use vstd::string::StringSliceAdditionalSpecFns;

verus! {

/// The ASCII space that separates the verb and each parameter.
pub const SP: u8 = 32;

/// ASCII carriage return.
pub const CR: u8 = 13;

/// ASCII line feed.
pub const LF: u8 = 10;

/// The two-byte CRLF line terminator.
pub open spec fn crlf() -> Seq<u8> {
    seq![CR, LF]
}

/// One space followed by each argument, in order.
pub open spec fn wire_args(args: Seq<Seq<u8>>) -> Seq<u8>
    decreases args.len(),
{
    if args.len() == 0 {
        Seq::empty()
    } else {
        seq![32u8] + args.first() + wire_args(args.drop_first())
    }
}

/// The full wire form of a command line: verb, spaced arguments, CRLF.
pub open spec fn wire_bytes(verb: Seq<u8>, args: Seq<Seq<u8>>) -> Seq<u8> {
    verb + wire_args(args) + crlf()
}

proof fn lemma_wire_args_zero()
    ensures
        wire_args(Seq::empty()) == Seq::<u8>::empty(),
{
}

proof fn lemma_wire_args_one(a: Seq<u8>)
    ensures
        wire_args(seq![a]) =~= seq![32u8] + a,
{
    assert(seq![a].drop_first() =~= Seq::<Seq<u8>>::empty());
    lemma_wire_args_zero();
}

/// A command that can report its exact encoded size and append its wire
/// form to a buffer.
pub trait Command {
    /// The four-byte verb.
    spec fn verb(&self) -> Seq<u8>;

    /// The argument byte strings, in order.
    spec fn args(&self) -> Seq<Seq<u8>>;

    /// The number of bytes [`Command::encode`] appends: exactly the length
    /// of the wire form.
    fn size(&self) -> (n: usize)
        requires
            wire_bytes(self.verb(), self.args()).len() <= usize::MAX,
        ensures
            n == wire_bytes(self.verb(), self.args()).len(),
    ;

    /// Appends the exact wire form of the command to `buf`.
    fn encode(&self, buf: &mut Vec<u8>)
        ensures
            final(buf)@ == old(buf)@ + wire_bytes(self.verb(), self.args()),
    ;
}

/// USER: present the user name to log in as.
pub struct User<'a> {
    user: &'a str,
}

impl<'a> User<'a> {
    pub fn new(user: &'a str) -> (c: User<'a>)
        ensures
            c.verb() == spec_verb_user(),
            c.args() =~= seq![user.spec_bytes()],
    {
        User { user }
    }
}

/// The verb bytes of USER.
pub open spec fn spec_verb_user() -> Seq<u8> {
    seq![85u8, 83u8, 69u8, 82u8]
}

impl<'a> Command for User<'a> {
    closed spec fn verb(&self) -> Seq<u8> {
        spec_verb_user()
    }

    closed spec fn args(&self) -> Seq<Seq<u8>> {
        seq![self.user.spec_bytes()]
    }

    fn size(&self) -> (n: usize) {
        proof {
            lemma_wire_args_one(self.user.spec_bytes());
        }
        4 + 1 + self.user.len() + 2
    }

    fn encode(&self, buf: &mut Vec<u8>) {
        append_verb(buf, 85, 83, 69, 82);
        buf.push(SP);
        append_all(buf, self.user.as_bytes());
        append_eol(buf);
        proof {
            lemma_wire_args_one(self.user.spec_bytes());
            assert(buf@ =~= old(buf)@ + wire_bytes(self.verb(), self.args()));
        }
    }
}

/// PASS: present the password for the user named before.
pub struct Pass<'a> {
    pass: &'a str,
}

impl<'a> Pass<'a> {
    pub fn new(pass: &'a str) -> (c: Pass<'a>)
        ensures
            c.verb() == spec_verb_pass(),
            c.args() =~= seq![pass.spec_bytes()],
    {
        Pass { pass }
    }
}

/// The verb bytes of PASS.
pub open spec fn spec_verb_pass() -> Seq<u8> {
    seq![80u8, 65u8, 83u8, 83u8]
}

impl<'a> Command for Pass<'a> {
    closed spec fn verb(&self) -> Seq<u8> {
        spec_verb_pass()
    }

    closed spec fn args(&self) -> Seq<Seq<u8>> {
        seq![self.pass.spec_bytes()]
    }

    fn size(&self) -> (n: usize) {
        proof {
            lemma_wire_args_one(self.pass.spec_bytes());
        }
        4 + 1 + self.pass.len() + 2
    }

    fn encode(&self, buf: &mut Vec<u8>) {
        append_verb(buf, 80, 65, 83, 83);
        buf.push(SP);
        append_all(buf, self.pass.as_bytes());
        append_eol(buf);
        proof {
            lemma_wire_args_one(self.pass.spec_bytes());
            assert(buf@ =~= old(buf)@ + wire_bytes(self.verb(), self.args()));
        }
    }
}

/// LIST: ask for a legacy directory listing of a path.
pub struct List<'a> {
    path: &'a str,
}

impl<'a> List<'a> {
    pub fn new(path: &'a str) -> (c: List<'a>)
        ensures
            c.verb() == spec_verb_list(),
            c.args() =~= seq![path.spec_bytes()],
    {
        List { path }
    }
}

/// The verb bytes of LIST.
pub open spec fn spec_verb_list() -> Seq<u8> {
    seq![76u8, 73u8, 83u8, 84u8]
}

impl<'a> Command for List<'a> {
    closed spec fn verb(&self) -> Seq<u8> {
        spec_verb_list()
    }

    closed spec fn args(&self) -> Seq<Seq<u8>> {
        seq![self.path.spec_bytes()]
    }

    fn size(&self) -> (n: usize) {
        proof {
            lemma_wire_args_one(self.path.spec_bytes());
        }
        4 + 1 + self.path.len() + 2
    }

    fn encode(&self, buf: &mut Vec<u8>) {
        append_verb(buf, 76, 73, 83, 84);
        buf.push(SP);
        append_all(buf, self.path.as_bytes());
        append_eol(buf);
        proof {
            lemma_wire_args_one(self.path.spec_bytes());
            assert(buf@ =~= old(buf)@ + wire_bytes(self.verb(), self.args()));
        }
    }
}

/// MLSD: ask for a machine-parsable directory listing of a path.
pub struct Mlsd<'a> {
    path: &'a str,
}

impl<'a> Mlsd<'a> {
    pub fn new(path: &'a str) -> (c: Mlsd<'a>)
        ensures
            c.verb() == spec_verb_mlsd(),
            c.args() =~= seq![path.spec_bytes()],
    {
        Mlsd { path }
    }
}

/// The verb bytes of MLSD.
pub open spec fn spec_verb_mlsd() -> Seq<u8> {
    seq![77u8, 76u8, 83u8, 68u8]
}

impl<'a> Command for Mlsd<'a> {
    closed spec fn verb(&self) -> Seq<u8> {
        spec_verb_mlsd()
    }

    closed spec fn args(&self) -> Seq<Seq<u8>> {
        seq![self.path.spec_bytes()]
    }

    fn size(&self) -> (n: usize) {
        proof {
            lemma_wire_args_one(self.path.spec_bytes());
        }
        4 + 1 + self.path.len() + 2
    }

    fn encode(&self, buf: &mut Vec<u8>) {
        append_verb(buf, 77, 76, 83, 68);
        buf.push(SP);
        append_all(buf, self.path.as_bytes());
        append_eol(buf);
        proof {
            lemma_wire_args_one(self.path.spec_bytes());
            assert(buf@ =~= old(buf)@ + wire_bytes(self.verb(), self.args()));
        }
    }
}

/// STOR: upload the data-connection bytes to a path.
pub struct Stor<'a> {
    path: &'a str,
}

impl<'a> Stor<'a> {
    pub fn new(path: &'a str) -> (c: Stor<'a>)
        ensures
            c.verb() == spec_verb_stor(),
            c.args() =~= seq![path.spec_bytes()],
    {
        Stor { path }
    }
}

/// The verb bytes of STOR.
pub open spec fn spec_verb_stor() -> Seq<u8> {
    seq![83u8, 84u8, 79u8, 82u8]
}

impl<'a> Command for Stor<'a> {
    closed spec fn verb(&self) -> Seq<u8> {
        spec_verb_stor()
    }

    closed spec fn args(&self) -> Seq<Seq<u8>> {
        seq![self.path.spec_bytes()]
    }

    fn size(&self) -> (n: usize) {
        proof {
            lemma_wire_args_one(self.path.spec_bytes());
        }
        4 + 1 + self.path.len() + 2
    }

    fn encode(&self, buf: &mut Vec<u8>) {
        append_verb(buf, 83, 84, 79, 82);
        buf.push(SP);
        append_all(buf, self.path.as_bytes());
        append_eol(buf);
        proof {
            lemma_wire_args_one(self.path.spec_bytes());
            assert(buf@ =~= old(buf)@ + wire_bytes(self.verb(), self.args()));
        }
    }
}

/// PASV: ask the server for a passive-mode data address.
pub struct Pasv;

impl Default for Pasv {
    fn default() -> (c: Pasv)
        ensures
            c == Pasv,
    {
        Pasv
    }
}

/// The verb bytes of PASV.
pub open spec fn spec_verb_pasv() -> Seq<u8> {
    seq![80u8, 65u8, 83u8, 86u8]
}

impl Command for Pasv {
    open spec fn verb(&self) -> Seq<u8> {
        spec_verb_pasv()
    }

    open spec fn args(&self) -> Seq<Seq<u8>> {
        Seq::empty()
    }

    fn size(&self) -> (n: usize) {
        proof {
            lemma_wire_args_zero();
        }
        4 + 2
    }

    fn encode(&self, buf: &mut Vec<u8>) {
        append_verb(buf, 80, 65, 83, 86);
        append_eol(buf);
        proof {
            lemma_wire_args_zero();
            assert(buf@ =~= old(buf)@ + wire_bytes(self.verb(), self.args()));
        }
    }
}

/// SYST: ask for the server's operating-system type.
pub struct Syst;

impl Default for Syst {
    fn default() -> (c: Syst)
        ensures
            c == Syst,
    {
        Syst
    }
}

/// The verb bytes of SYST.
pub open spec fn spec_verb_syst() -> Seq<u8> {
    seq![83u8, 89u8, 83u8, 84u8]
}

impl Command for Syst {
    open spec fn verb(&self) -> Seq<u8> {
        spec_verb_syst()
    }

    open spec fn args(&self) -> Seq<Seq<u8>> {
        Seq::empty()
    }

    fn size(&self) -> (n: usize) {
        proof {
            lemma_wire_args_zero();
        }
        4 + 2
    }

    fn encode(&self, buf: &mut Vec<u8>) {
        append_verb(buf, 83, 89, 83, 84);
        append_eol(buf);
        proof {
            lemma_wire_args_zero();
            assert(buf@ =~= old(buf)@ + wire_bytes(self.verb(), self.args()));
        }
    }
}

/// FEAT: ask which optional capabilities the server advertises.
pub struct Feat;

impl Default for Feat {
    fn default() -> (c: Feat)
        ensures
            c == Feat,
    {
        Feat
    }
}

/// The verb bytes of FEAT.
pub open spec fn spec_verb_feat() -> Seq<u8> {
    seq![70u8, 69u8, 65u8, 84u8]
}

impl Command for Feat {
    open spec fn verb(&self) -> Seq<u8> {
        spec_verb_feat()
    }

    open spec fn args(&self) -> Seq<Seq<u8>> {
        Seq::empty()
    }

    fn size(&self) -> (n: usize) {
        proof {
            lemma_wire_args_zero();
        }
        4 + 2
    }

    fn encode(&self, buf: &mut Vec<u8>) {
        append_verb(buf, 70, 69, 65, 84);
        append_eol(buf);
        proof {
            lemma_wire_args_zero();
            assert(buf@ =~= old(buf)@ + wire_bytes(self.verb(), self.args()));
        }
    }
}

/// TYPE: select the representation type for transfers. Its single argument
/// is a one-character selector rather than an arbitrary string.
pub enum Type {
    ASCII,
    EBCDIC,
    Image,
    Local,
}

/// The verb bytes of TYPE.
pub open spec fn spec_verb_type() -> Seq<u8> {
    seq![84u8, 89u8, 80u8, 69u8]
}

impl Type {
    /// The one-byte selector: `A`, `E`, `I` or `L`.
    pub open spec fn selector(&self) -> u8 {
        match self {
            Type::ASCII => 65,
            Type::EBCDIC => 69,
            Type::Image => 73,
            Type::Local => 76,
        }
    }
}

impl Command for Type {
    open spec fn verb(&self) -> Seq<u8> {
        spec_verb_type()
    }

    open spec fn args(&self) -> Seq<Seq<u8>> {
        seq![seq![self.selector()]]
    }

    fn size(&self) -> (n: usize) {
        proof {
            lemma_wire_args_one(seq![self.selector()]);
        }
        4 + 1 + 1 + 2
    }

    fn encode(&self, buf: &mut Vec<u8>) {
        let ty: u8 = match *self {
            Type::ASCII => 65,
            Type::EBCDIC => 69,
            Type::Image => 73,
            Type::Local => 76,
        };
        append_verb(buf, 84, 89, 80, 69);
        buf.push(SP);
        buf.push(ty);
        append_eol(buf);
        proof {
            lemma_wire_args_one(seq![self.selector()]);
            assert(buf@ =~= old(buf)@ + wire_bytes(self.verb(), self.args()));
        }
    }
}

/// `s` split on every occurrence of `d`: the pieces between the separators,
/// in order, with empty pieces kept.
pub open spec fn split_on(s: Seq<u8>, d: u8) -> Seq<Seq<u8>>
    decreases s.len(),
{
    if s.len() == 0 {
        seq![Seq::empty()]
    } else if s[0] == d {
        seq![Seq::empty()] + split_on(s.drop_first(), d)
    } else {
        let rest = split_on(s.drop_first(), d);
        seq![seq![s[0]] + rest.first()] + rest.drop_first()
    }
}

/// Whether `a` is free of the bytes that structure a command line: space,
/// carriage return and line feed.
pub open spec fn plain_word(a: Seq<u8>) -> bool {
    !a.contains(SP) && !a.contains(CR) && !a.contains(LF)
}

pub(crate) proof fn lemma_split_on_len(s: Seq<u8>, d: u8)
    ensures
        split_on(s, d).len() >= 1,
    decreases s.len(),
{
    if s.len() > 0 && s[0] != d {
        lemma_split_on_len(s.drop_first(), d);
    }
}

pub(crate) proof fn lemma_split_on_free(s: Seq<u8>, d: u8)
    requires
        !s.contains(d),
    ensures
        split_on(s, d) =~~= seq![s],
    decreases s.len(),
{
    if s.len() == 0 {
        assert(split_on(s, d) =~~= seq![s]);
    } else {
        assert(s[0] != d);
        assert(!s.drop_first().contains(d)) by {
            assert(forall|i: int|
                0 <= i < s.drop_first().len() ==> s.drop_first()[i] == s[i + 1]);
        }
        lemma_split_on_free(s.drop_first(), d);
        lemma_split_on_len(s.drop_first(), d);
        assert(seq![s[0]] + split_on(s.drop_first(), d).first() =~= s);
        assert(split_on(s, d) =~~= seq![s]);
    }
}

pub(crate) proof fn lemma_split_on_concat(a: Seq<u8>, b: Seq<u8>, d: u8)
    requires
        !a.contains(d),
    ensures
        split_on(a + seq![d] + b, d) =~~= seq![a] + split_on(b, d),
    decreases a.len(),
{
    let s = a + seq![d] + b;
    if a.len() == 0 {
        assert(s[0] == d);
        assert(s.drop_first() =~= b);
        assert(split_on(s, d) =~~= seq![a] + split_on(b, d));
    } else {
        assert(s[0] == a[0]);
        assert(a[0] != d);
        assert(!a.drop_first().contains(d)) by {
            assert(forall|i: int|
                0 <= i < a.drop_first().len() ==> a.drop_first()[i] == a[i + 1]);
        }
        assert(s.drop_first() =~= a.drop_first() + seq![d] + b);
        lemma_split_on_concat(a.drop_first(), b, d);
        let rest = split_on(s.drop_first(), d);
        lemma_split_on_len(b, d);
        assert(rest =~~= seq![a.drop_first()] + split_on(b, d));
        assert(rest.first() == a.drop_first());
        assert(seq![s[0]] + rest.first() =~= a);
        assert(rest.drop_first() =~~= split_on(b, d));
        assert(split_on(s, d) =~~= seq![a] + split_on(b, d));
    }
}

proof fn lemma_split_wire_args(head: Seq<u8>, args: Seq<Seq<u8>>)
    requires
        plain_word(head),
        forall|i: int| 0 <= i < args.len() ==> plain_word(#[trigger] args[i]),
    ensures
        split_on(head + wire_args(args), SP) =~~= seq![head] + args,
    decreases args.len(),
{
    if args.len() == 0 {
        assert(head + wire_args(args) =~= head);
        lemma_split_on_free(head, SP);
        assert(split_on(head + wire_args(args), SP) =~~= seq![head] + args);
    } else {
        let tail = args.first() + wire_args(args.drop_first());
        assert(head + wire_args(args) =~= head + seq![SP] + tail);
        lemma_split_on_concat(head, tail, SP);
        assert(args.first().contains(SP) ==> false);
        assert(forall|i: int|
            0 <= i < args.drop_first().len() ==> plain_word(#[trigger] args.drop_first()[i]));
        lemma_split_wire_args(args.first(), args.drop_first());
        assert(split_on(head + wire_args(args), SP) =~~= seq![head] + seq![args.first()]
            + args.drop_first());
        assert(seq![head] + seq![args.first()] + args.drop_first() =~~= seq![head] + args);
    }
}

/// Law: command encoding round-trips. The wire form of a command is the
/// line `verb + wire_args(args)` terminated by CRLF (so stripping the final
/// two bytes recovers that line), and splitting the line on spaces recovers
/// the verb and every argument verbatim, as long as the verb and arguments
/// are themselves free of space, carriage return and line feed. Together
/// with each command's `size` and `encode` contracts - `encode` appends
/// exactly `wire_bytes(verb, args)` and `size` returns exactly its length -
/// this says an encoded command is read back as what was written.
pub proof fn lemma_command_round_trip(verb: Seq<u8>, args: Seq<Seq<u8>>)
    requires
        plain_word(verb),
        forall|i: int| 0 <= i < args.len() ==> plain_word(#[trigger] args[i]),
    ensures
        wire_bytes(verb, args).len() == verb.len() + wire_args(args).len() + 2,
        wire_bytes(verb, args).take(wire_bytes(verb, args).len() - 2) =~= verb + wire_args(args),
        split_on(verb + wire_args(args), SP) =~~= seq![verb] + args,
{
    assert(wire_bytes(verb, args).take(wire_bytes(verb, args).len() - 2) =~= verb + wire_args(
        args,
    ));
    lemma_split_wire_args(verb, args);
}

/// Appends the four bytes of a verb.
fn append_verb(buf: &mut Vec<u8>, a: u8, b: u8, c: u8, d: u8)
    ensures
        final(buf)@ =~= old(buf)@ + seq![a, b, c, d],
{
    buf.push(a);
    buf.push(b);
    buf.push(c);
    buf.push(d);
}

/// Appends the CRLF terminator.
fn append_eol(buf: &mut Vec<u8>)
    ensures
        final(buf)@ =~= old(buf)@ + crlf(),
{
    buf.push(CR);
    buf.push(LF);
}

/// Appends every byte of `data` to `output`.
fn append_all(output: &mut Vec<u8>, data: &[u8])
    ensures
        final(output)@ == old(output)@ + data@,
{
    append_range(output, data, 0, data.len());
    proof {
        assert(output@ =~= old(output)@ + data@);
    }
}

/// Appends `data[from..to]` to `output`.
pub(crate) fn append_range(output: &mut Vec<u8>, data: &[u8], from: usize, to: usize)
    requires
        from <= to <= data@.len(),
    ensures
        final(output)@ == old(output)@ + data@.subrange(from as int, to as int),
{
    let mut i = from;
    while i < to
        invariant
            from <= i <= to <= data@.len(),
            output@ == old(output)@ + data@.subrange(from as int, i as int),
        decreases to - i,
    {
        let b = *vstd::slice::slice_index_get(data, i);
        output.push(b);
        proof {
            assert(output@ =~= old(output)@ + data@.subrange(from as int, i + 1 as int));
        }
        i += 1;
    }
}

} // verus!
