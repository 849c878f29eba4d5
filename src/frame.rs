//! The framed request/response protocol of the local stream socket.
//!
//! A request is `"REQ\n"`, the method name, `"\n"`, the JSON body, `"\r"` and `"\nEND\n"`; a
//! response is `"RES\n"`, the JSON envelope and `"\nEND\n"`. A [`RequestParser`] is fed the
//! request one token at a time: [`RequestParser::next_read`] says how the next token is cut from
//! the stream (a fixed number of bytes, or up to and including a delimiter), and the caller reads
//! it, with a timeout for every token but the first, and hands it to [`RequestParser::accept`].

use vstd::prelude::*;
use vstd::utf8::{encode_utf8, valid_utf8};

verus! {

pub const NEWLINE: u8 = 10;

pub const CARRIAGE_RETURN: u8 = 13;

/// Time allowed for each token of a request after its identifier, in milliseconds.
pub const TOKEN_TIMEOUT_MS: u64 = 500;

/// Time allowed for leftover bytes to arrive after a bad request, in milliseconds.
pub const DRAIN_TIMEOUT_MS: u64 = 300;

/// Most bytes of garbage drained after a bad request before the connection is given up.
pub const MISBEHAVING_LIMIT: usize = 2048;

/// `"REQ\n"`
pub open spec fn request_identifier() -> Seq<u8> {
    seq![82u8, 69u8, 81u8, 10u8]
}

/// `"RES\n"`
pub open spec fn response_identifier() -> Seq<u8> {
    seq![82u8, 69u8, 83u8, 10u8]
}

/// `"\nEND\n"`
pub open spec fn terminator() -> Seq<u8> {
    seq![10u8, 69u8, 78u8, 68u8, 10u8]
}

/// The request frame for the method whose name is encoded as `method` and the body `body`.
pub open spec fn request_frame(method: Seq<u8>, body: Seq<u8>) -> Seq<u8> {
    request_identifier() + method + seq![NEWLINE] + body + seq![CARRIAGE_RETURN] + terminator()
}

/// The response frame around the encoded envelope `envelope`.
pub open spec fn response_frame(envelope: Seq<u8>) -> Seq<u8> {
    response_identifier() + envelope + terminator()
}

/// Where a request parser stands: which token it expects next.
#[derive(Clone, Copy, Debug, PartialEq, Eq, Structural)]
pub enum FrameStage {
    Identifier,
    Method,
    Body,
    Terminator,
}

/// How the next token is cut from the stream.
#[derive(Clone, Copy, Debug, PartialEq, Eq, Structural)]
pub enum ReadStep {
    /// Exactly this many bytes.
    Exact(usize),
    /// The bytes up to and including the first occurrence of this byte, or up to the end of
    /// the stream.
    Until(u8),
}

/// The read step that cuts the token expected at `stage`.
pub open spec fn read_step(stage: FrameStage) -> ReadStep {
    match stage {
        FrameStage::Identifier => ReadStep::Exact(4),
        FrameStage::Method => ReadStep::Until(NEWLINE),
        FrameStage::Body => ReadStep::Until(CARRIAGE_RETURN),
        FrameStage::Terminator => ReadStep::Exact(5),
    }
}

/// The index just past the first `delim` in `s`, or the length of `s` where there is none.
pub open spec fn cut_until(s: Seq<u8>, delim: u8) -> int
    decreases s.len(),
{
    if s.len() == 0 {
        0
    } else if s[0] == delim {
        1
    } else {
        1 + cut_until(s.drop_first(), delim)
    }
}

/// How many bytes of the stream `s` the read step takes.
pub open spec fn cut_len(step: ReadStep, s: Seq<u8>) -> int {
    match step {
        ReadStep::Exact(n) => if n <= s.len() {
            n as int
        } else {
            s.len() as int
        },
        ReadStep::Until(d) => cut_until(s, d),
    }
}

/// Whether `token` is acceptable as the token expected at `stage`.
pub open spec fn token_ok(stage: FrameStage, token: Seq<u8>) -> bool {
    match stage {
        FrameStage::Identifier => token == request_identifier(),
        FrameStage::Method => token.len() > 0 && token.last() == NEWLINE && valid_utf8(
            token.drop_last(),
        ),
        FrameStage::Body => token.len() > 0 && token.last() == CARRIAGE_RETURN,
        FrameStage::Terminator => token == terminator(),
    }
}

/// The stage after an acceptable token at `stage`; a complete request leads back to the
/// identifier.
pub open spec fn stage_after(stage: FrameStage) -> FrameStage {
    match stage {
        FrameStage::Identifier => FrameStage::Method,
        FrameStage::Method => FrameStage::Body,
        FrameStage::Body => FrameStage::Terminator,
        FrameStage::Terminator => FrameStage::Identifier,
    }
}

/// The stage after `token` at `stage`: a bad token also leads back to the identifier, so that
/// the next request can be read once the garbage is drained.
pub open spec fn accept_stage(stage: FrameStage, token: Seq<u8>) -> FrameStage {
    if token_ok(stage, token) {
        stage_after(stage)
    } else {
        FrameStage::Identifier
    }
}

/// What a parser reports after one token.
#[derive(Debug)]
pub enum ParseStep {
    /// The request goes on.
    Continue,
    /// A complete request: its method and its body.
    Request(String, Vec<u8>),
    /// The request is malformed; the message says how.
    BadRequest(String),
}

/// Whether `a` and `b` hold the same bytes.
fn bytes_equal(a: &[u8], b: &[u8]) -> (r: bool)
    ensures
        r == (a@ == b@),
{
    if a.len() != b.len() {
        return false;
    }
    let mut i: usize = 0;
    while i < a.len()
        invariant
            a@.len() == b@.len(),
            i <= a@.len(),
            forall|j: int| 0 <= j < i ==> a@[j] == b@[j],
        decreases a@.len() - i,
    {
        if a[i] != b[i] {
            return false;
        }
        i = i + 1;
    }
    assert(a@ =~= b@);
    true
}

/// Appends the bytes of `src` to `out`.
fn append_bytes(out: &mut Vec<u8>, src: &[u8])
    ensures
        final(out)@ == old(out)@ + src@,
{
    let mut i: usize = 0;
    while i < src.len()
        invariant
            i <= src@.len(),
            out@ == old(out)@ + src@.subrange(0, i as int),
        decreases src@.len() - i,
    {
        out.push(src[i]);
        i = i + 1;
        assert(src@.subrange(0, i as int) =~= src@.subrange(0, i - 1) + seq![src@[i - 1]]);
    }
    assert(src@.subrange(0, src@.len() as int) =~= src@);
}

/// `"REQ\n"` as bytes.
pub fn request_identifier_bytes() -> (r: Vec<u8>)
    ensures
        r@ == request_identifier(),
{
    let r = vec![82u8, 69u8, 81u8, 10u8];
    assert(r@ =~= request_identifier());
    r
}

/// `"RES\n"` as bytes.
pub fn response_identifier_bytes() -> (r: Vec<u8>)
    ensures
        r@ == response_identifier(),
{
    let r = vec![82u8, 69u8, 83u8, 10u8];
    assert(r@ =~= response_identifier());
    r
}

/// `"\nEND\n"` as bytes.
pub fn terminator_bytes() -> (r: Vec<u8>)
    ensures
        r@ == terminator(),
{
    let r = vec![10u8, 69u8, 78u8, 68u8, 10u8];
    assert(r@ =~= terminator());
    r
}

/// Relies on `String::from_utf8`: the text whose UTF-8 encoding is `bytes`, or `None` when
/// they are not valid UTF-8.
#[verifier::external_body]
fn utf8_string(bytes: Vec<u8>) -> (r: Option<String>)
    ensures
        r is Some <==> valid_utf8(bytes@),
        r matches Some(s) ==> encode_utf8(s@) == bytes@,
{
    String::from_utf8(bytes).ok()
}

/// The request frame for `method` and `body`.
pub fn frame_request(method: &str, body: &[u8]) -> (r: Vec<u8>)
    ensures
        r@ == request_frame(encode_utf8(method@), body@),
{
    let mut r = request_identifier_bytes();
    append_bytes(&mut r, method.as_bytes());
    r.push(NEWLINE);
    append_bytes(&mut r, body);
    r.push(CARRIAGE_RETURN);
    let t = terminator_bytes();
    append_bytes(&mut r, t.as_slice());
    assert(r@ =~= request_frame(encode_utf8(method@), body@));
    r
}

/// The response frame around the encoded envelope `envelope`.
pub fn frame_response(envelope: &[u8]) -> (r: Vec<u8>)
    ensures
        r@ == response_frame(envelope@),
{
    let mut r = response_identifier_bytes();
    append_bytes(&mut r, envelope);
    let t = terminator_bytes();
    append_bytes(&mut r, t.as_slice());
    r
}

/// The report of a malformed request, with its message.
fn bad_request(message: &str) -> (r: ParseStep)
    requires
        message@.len() > 0,
    ensures
        r matches ParseStep::BadRequest(m) && m@ == message@,
{
    ParseStep::BadRequest(message.to_owned())
}

/// Reads a request one token at a time.
pub struct RequestParser {
    stage: FrameStage,
    method: String,
    body: Vec<u8>,
}

impl RequestParser {
    /// The token the parser expects next.
    pub closed spec fn spec_stage(&self) -> FrameStage {
        self.stage
    }

    /// The encoded method name read so far in the current request.
    pub closed spec fn spec_method(&self) -> Seq<u8> {
        encode_utf8(self.method@)
    }

    /// The body read so far in the current request.
    pub closed spec fn spec_body(&self) -> Seq<u8> {
        self.body@
    }

    /// A parser waiting for the identifier of a request.
    pub fn new() -> (r: RequestParser)
        ensures
            r.spec_stage() == FrameStage::Identifier,
    {
        RequestParser { stage: FrameStage::Identifier, method: String::new(), body: Vec::new() }
    }

    /// Drops any request in progress, for instance after a token timed out, and waits for an
    /// identifier again.
    pub fn reset(&mut self)
        ensures
            final(self).spec_stage() == FrameStage::Identifier,
            final(self).spec_method() == old(self).spec_method(),
            final(self).spec_body() == old(self).spec_body(),
    {
        self.stage = FrameStage::Identifier;
    }

    /// The token the parser expects next.
    pub fn stage(&self) -> (r: FrameStage)
        ensures
            r == self.spec_stage(),
    {
        self.stage
    }

    /// How the next token is to be cut from the stream.
    pub fn next_read(&self) -> (r: ReadStep)
        ensures
            r == read_step(self.spec_stage()),
    {
        match self.stage {
            FrameStage::Identifier => ReadStep::Exact(4),
            FrameStage::Method => ReadStep::Until(NEWLINE),
            FrameStage::Body => ReadStep::Until(CARRIAGE_RETURN),
            FrameStage::Terminator => ReadStep::Exact(5),
        }
    }

    /// Whether the next token is read under [`TOKEN_TIMEOUT_MS`]: every token but the
    /// identifier, where a persistent connection waits for its next request.
    pub fn timed(&self) -> (r: bool)
        ensures
            r == !(self.spec_stage() is Identifier),
    {
        match self.stage {
            FrameStage::Identifier => false,
            _ => true,
        }
    }

    /// Takes the next token of the stream. An acceptable token moves the parser on, and the
    /// terminator completes the request; any other token is a bad request and sends the parser
    /// back to wait for an identifier.
    pub fn accept(&mut self, token: Vec<u8>) -> (r: ParseStep)
        ensures
            final(self).spec_stage() == accept_stage(old(self).spec_stage(), token@),
            !token_ok(old(self).spec_stage(), token@) <==> r is BadRequest,
            r matches ParseStep::BadRequest(m) ==> m@.len() > 0,
            (!token_ok(old(self).spec_stage(), token@) || old(self).spec_stage() is Identifier)
                ==> final(self).spec_method() == old(self).spec_method(),
            (!token_ok(old(self).spec_stage(), token@) || old(self).spec_stage() is Identifier)
                ==> final(self).spec_body() == old(self).spec_body(),
            token_ok(old(self).spec_stage(), token@) ==> match old(self).spec_stage() {
                FrameStage::Method => r is Continue && final(self).spec_method()
                    == token@.drop_last(),
                FrameStage::Body => r is Continue && final(self).spec_method()
                    == old(self).spec_method() && final(self).spec_body() == token@.drop_last(),
                FrameStage::Terminator => r matches ParseStep::Request(m, b) && encode_utf8(m@)
                    == old(self).spec_method() && b@ == old(self).spec_body(),
                FrameStage::Identifier => r is Continue,
            },
    {
        match self.stage {
            FrameStage::Identifier => {
                let expected = request_identifier_bytes();
                if bytes_equal(token.as_slice(), expected.as_slice()) {
                    self.stage = FrameStage::Method;
                    ParseStep::Continue
                } else {
                    self.stage = FrameStage::Identifier;
                    {
                    proof {
                        reveal_strlit("Invalid request identifier");
                    }
                    bad_request("Invalid request identifier")
                }
                }
            },
            FrameStage::Method => {
                let mut line = token;
                let ghost whole = line@;
                match line.pop() {
                    Some(b) => {
                        if b != NEWLINE {
                            self.stage = FrameStage::Identifier;
                            return {
                    proof {
                        reveal_strlit("Method does not end in newline");
                    }
                    bad_request("Method does not end in newline")
                };
                        }
                    },
                    None => {
                        self.stage = FrameStage::Identifier;
                        return {
                    proof {
                        reveal_strlit("Method was empty");
                    }
                    bad_request("Method was empty")
                };
                    },
                }
                assert(line@ == whole.drop_last());
                match utf8_string(line) {
                    Some(m) => {
                        self.method = m;
                        self.stage = FrameStage::Body;
                        ParseStep::Continue
                    },
                    None => {
                        self.stage = FrameStage::Identifier;
                        {
                    proof {
                        reveal_strlit("Error parsing method as string");
                    }
                    bad_request("Error parsing method as string")
                }
                    },
                }
            },
            FrameStage::Body => {
                let mut body = token;
                let ghost whole = body@;
                match body.pop() {
                    Some(b) => {
                        if b != CARRIAGE_RETURN {
                            self.stage = FrameStage::Identifier;
                            return {
                    proof {
                        reveal_strlit("Body does not end with carriage return");
                    }
                    bad_request("Body does not end with carriage return")
                };
                        }
                    },
                    None => {
                        self.stage = FrameStage::Identifier;
                        return {
                    proof {
                        reveal_strlit("Body does not end with carriage return");
                    }
                    bad_request("Body does not end with carriage return")
                };
                    },
                }
                assert(body@ == whole.drop_last());
                self.body = body;
                self.stage = FrameStage::Terminator;
                ParseStep::Continue
            },
            FrameStage::Terminator => {
                let expected = terminator_bytes();
                self.stage = FrameStage::Identifier;
                if bytes_equal(token.as_slice(), expected.as_slice()) {
                    let mut method = String::new();
                    let mut body: Vec<u8> = Vec::new();
                    core::mem::swap(&mut method, &mut self.method);
                    core::mem::swap(&mut body, &mut self.body);
                    ParseStep::Request(method, body)
                } else {
                    {
                    proof {
                        reveal_strlit("Invalid terminator");
                    }
                    bad_request("Invalid terminator")
                }
                }
            },
        }
    }
}

/// `"END\n"`, the part of the terminator after the newline that ends a response's envelope.
pub open spec fn response_tail() -> Seq<u8> {
    seq![69u8, 78u8, 68u8, 10u8]
}

/// The envelope of a response read as three tokens: the identifier (four bytes), the envelope
/// up to and including the newline that starts the terminator, and the rest of the terminator
/// (four bytes). `None` when the response is malformed.
pub fn response_envelope(identifier: &[u8], line: Vec<u8>, tail: &[u8]) -> (r: Option<Vec<u8>>)
    ensures
        r is Some <==> (identifier@ == response_identifier() && line@.len() > 0 && line@.last()
            == NEWLINE && tail@ == response_tail()),
        r matches Some(e) ==> e@ == line@.drop_last(),
{
    let expected = response_identifier_bytes();
    if !bytes_equal(identifier, expected.as_slice()) {
        return None;
    }
    let end = vec![69u8, 78u8, 68u8, 10u8];
    assert(end@ =~= response_tail());
    if !bytes_equal(tail, end.as_slice()) {
        return None;
    }
    let mut body = line;
    let ghost whole = body@;
    match body.pop() {
        Some(b) => {
            if b == NEWLINE {
                assert(body@ == whole.drop_last());
                Some(body)
            } else {
                None
            }
        },
        None => None,
    }
}

/// A response frame around an envelope without a newline is cut by the three reads of a
/// client into exactly the tokens that [`response_envelope`] accepts, and gives back the
/// envelope, whatever follows the frame on the stream.
pub proof fn lemma_response_frame_reads(envelope: Seq<u8>, rest: Seq<u8>)
    requires
        !envelope.contains(NEWLINE),
    ensures
        ({
            let s = response_frame(envelope) + rest;
            let s1 = s.subrange(4, s.len() as int);
            let k = cut_until(s1, NEWLINE);
            let line = s1.subrange(0, k);
            let s2 = s1.subrange(k, s1.len() as int);
            &&& s.subrange(0, 4) == response_identifier()
            &&& line.len() > 0 && line.last() == NEWLINE && line.drop_last() == envelope
            &&& s2.subrange(0, 4) == response_tail()
            &&& s2.subrange(4, s2.len() as int) == rest
        }),
{
    let s = response_frame(envelope) + rest;
    assert(s.subrange(0, 4) =~= response_identifier());
    let s1 = s.subrange(4, s.len() as int);
    let after = response_tail() + rest;
    assert(s1 =~= envelope + seq![NEWLINE] + after);
    lemma_cut_until(envelope, NEWLINE, after);
    let k: int = envelope.len() as int + 1;
    assert(s1.subrange(0, k) =~= envelope + seq![NEWLINE]);
    assert((envelope + seq![NEWLINE]).drop_last() =~= envelope);
    let s2 = s1.subrange(k, s1.len() as int);
    assert(s2 =~= after);
    assert(s2.subrange(0, 4) =~= response_tail());
    assert(s2.subrange(4, s2.len() as int) =~= rest);
}

/// What the read that drains leftover bytes after a bad request came to.
#[derive(Clone, Copy, Debug, PartialEq, Eq, Structural)]
pub enum DrainRead {
    /// This many bytes were read.
    Bytes(usize),
    /// Nothing arrived within [`DRAIN_TIMEOUT_MS`].
    TimedOut,
    /// The read failed.
    Failed,
}

/// How a connection goes on after draining the leftover bytes of a bad request.
#[derive(Clone, Copy, Debug, PartialEq, Eq, Structural)]
pub enum Drain {
    /// The leftover bytes are gone; the next request can be read.
    Resynced,
    /// The peer closed the connection.
    Closed,
    /// More than [`MISBEHAVING_LIMIT`] bytes of garbage: the connection is given up.
    TooMuchGarbage,
    /// The read failed: the connection is given up.
    Failed,
}

/// How many bytes may still be drained from the socket once `buffered` bytes were discarded
/// from the read buffer; `None` when the limit is already reached.
pub fn drain_budget(buffered: usize) -> (r: Option<usize>)
    ensures
        buffered >= MISBEHAVING_LIMIT ==> r is None,
        buffered < MISBEHAVING_LIMIT ==> r == Some((MISBEHAVING_LIMIT - buffered) as usize),
{
    if buffered >= MISBEHAVING_LIMIT {
        None
    } else {
        Some(MISBEHAVING_LIMIT - buffered)
    }
}

/// The outcome of draining with room for `budget` bytes: a read that fills the whole budget
/// means more garbage is waiting than the limit allows.
pub fn drain_outcome(budget: usize, read: DrainRead) -> (r: Drain)
    ensures
        r == match read {
            DrainRead::Bytes(n) => if n == 0 {
                Drain::Closed
            } else if n >= budget {
                Drain::TooMuchGarbage
            } else {
                Drain::Resynced
            },
            DrainRead::TimedOut => Drain::Resynced,
            DrainRead::Failed => Drain::Failed,
        },
{
    match read {
        DrainRead::Bytes(n) => {
            if n == 0 {
                Drain::Closed
            } else if n >= budget {
                Drain::TooMuchGarbage
            } else {
                Drain::Resynced
            }
        },
        DrainRead::TimedOut => Drain::Resynced,
        DrainRead::Failed => Drain::Failed,
    }
}

/// What happened on a connection since the last action.
pub enum ConnectionEvent {
    /// The token asked for was read.
    Token(Vec<u8>),
    /// The peer closed the connection.
    Closed,
    /// The token did not arrive within [`TOKEN_TIMEOUT_MS`].
    TimedOut,
    /// Reading from the socket failed.
    ReadFailed,
    /// The leftover bytes of a bad request were drained with this outcome.
    Drained(Drain),
}

/// What the server does next on a connection.
#[derive(Debug)]
pub enum ConnectionAction {
    /// Read the next token as the step says, under [`TOKEN_TIMEOUT_MS`] when the flag is set.
    Read(ReadStep, bool),
    /// The request is bad: drain the leftover bytes and report how that went.
    DrainLeftover,
    /// A complete request: answer it, then ask for the next read.
    Handle(String, Vec<u8>),
    /// Answer the bad request with an error envelope holding this message, then ask for the
    /// next read.
    SendError(String),
    /// Shut the connection down; the peer is gone.
    Close,
    /// Shut the connection down and report an error.
    Abort,
}

pub const TIMED_OUT_MESSAGE: &'static str = "Timed out reading request";

/// One connection of the socket server: a request parser, and the message of the bad request
/// being drained, if any.
pub struct Connection {
    parser: RequestParser,
    pending: Option<String>,
}

impl Connection {
    /// The token the connection's parser expects next.
    pub closed spec fn spec_stage(&self) -> FrameStage {
        self.parser.spec_stage()
    }

    /// The encoded method name of the request being read.
    pub closed spec fn spec_method(&self) -> Seq<u8> {
        self.parser.spec_method()
    }

    /// The body of the request being read.
    pub closed spec fn spec_body(&self) -> Seq<u8> {
        self.parser.spec_body()
    }

    /// The message of the bad request being drained, if any.
    pub closed spec fn spec_pending(&self) -> Option<Seq<char>> {
        match self.pending {
            Some(m) => Some(m@),
            None => None,
        }
    }

    /// The connection is well formed: a pending message is never empty.
    pub closed spec fn wf(&self) -> bool {
        self.pending matches Some(m) ==> m@.len() > 0
    }

    /// A new connection, waiting for the identifier of its first request.
    pub fn new() -> (r: Connection)
        ensures
            r.wf(),
            r.spec_stage() == FrameStage::Identifier,
            r.spec_pending() is None,
    {
        Connection { parser: RequestParser::new(), pending: None }
    }

    /// The read that the next token calls for.
    pub fn next_read(&self) -> (r: ConnectionAction)
        ensures
            r == ConnectionAction::Read(
                read_step(self.spec_stage()),
                !(self.spec_stage() is Identifier),
            ),
    {
        ConnectionAction::Read(self.parser.next_read(), self.parser.timed())
    }

    /// Takes what happened and says what to do next.
    pub fn on_event(&mut self, event: ConnectionEvent) -> (r: ConnectionAction)
        requires
            old(self).wf(),
        ensures
            final(self).wf(),
            r matches ConnectionAction::SendError(m) ==> m@.len() > 0,
            event matches ConnectionEvent::Token(t) ==> {
                let stage = old(self).spec_stage();
                &&& final(self).spec_stage() == accept_stage(stage, t@)
                &&& (token_ok(stage, t@) && stage is Method) ==> final(self).spec_method()
                    == t@.drop_last()
                &&& (token_ok(stage, t@) && stage is Body) ==> final(self).spec_body()
                    == t@.drop_last()
                &&& (token_ok(stage, t@) && stage is Body) ==> final(self).spec_method()
                    == old(self).spec_method()
                &&& (!token_ok(stage, t@) || stage is Identifier) ==> final(self).spec_method()
                    == old(self).spec_method()
                &&& (!token_ok(stage, t@) || stage is Identifier) ==> final(self).spec_body()
                    == old(self).spec_body()
                &&& !token_ok(stage, t@) ==> (r is DrainLeftover
                    && final(self).spec_pending() is Some)
                &&& (token_ok(stage, t@) && stage is Terminator) ==> (
                r matches ConnectionAction::Handle(m, b) && encode_utf8(m@)
                    == old(self).spec_method() && b@ == old(self).spec_body())
                &&& (token_ok(stage, t@) && !(stage is Terminator)) ==> r
                    == ConnectionAction::Read(read_step(stage_after(stage)), true)
            },
            event is Closed ==> r is Close,
            event is ReadFailed ==> r is Abort,
            event is TimedOut ==> (r is DrainLeftover && final(self).spec_stage()
                == FrameStage::Identifier && final(self).spec_pending() == Some(
                TIMED_OUT_MESSAGE@,
            )),
            !(event is Token) ==> final(self).spec_method() == old(self).spec_method(),
            !(event is Token) ==> final(self).spec_body() == old(self).spec_body(),
            event matches ConnectionEvent::Drained(d) ==> {
                &&& final(self).spec_stage() == old(self).spec_stage()
                &&& d is Resynced ==> match old(self).spec_pending() {
                    Some(m) => r matches ConnectionAction::SendError(e) && e@ == m,
                    None => r == ConnectionAction::Read(
                        read_step(old(self).spec_stage()),
                        !(old(self).spec_stage() is Identifier),
                    ),
                }
                &&& d is Closed ==> r is Close
                &&& (d is TooMuchGarbage || d is Failed) ==> r is Abort
            },
    {
        match event {
            ConnectionEvent::Token(t) => match self.parser.accept(t) {
                ParseStep::Continue => self.next_read(),
                ParseStep::Request(m, b) => ConnectionAction::Handle(m, b),
                ParseStep::BadRequest(message) => {
                    self.pending = Some(message);
                    ConnectionAction::DrainLeftover
                },
            },
            ConnectionEvent::Closed => ConnectionAction::Close,
            ConnectionEvent::ReadFailed => ConnectionAction::Abort,
            ConnectionEvent::TimedOut => {
                self.parser.reset();
                proof {
                    reveal_strlit("Timed out reading request");
                }
                self.pending = Some(TIMED_OUT_MESSAGE.to_owned());
                ConnectionAction::DrainLeftover
            },
            ConnectionEvent::Drained(d) => match d {
                Drain::Resynced => {
                    let mut pending = None;
                    core::mem::swap(&mut pending, &mut self.pending);
                    match pending {
                        Some(m) => ConnectionAction::SendError(m),
                        None => self.next_read(),
                    }
                },
                Drain::Closed => ConnectionAction::Close,
                Drain::TooMuchGarbage => ConnectionAction::Abort,
                Drain::Failed => ConnectionAction::Abort,
            },
        }
    }
}

/// Reads `n` tokens from `s`, starting at `stage`, each cut by its read step: `None` where one
/// of them is not acceptable; otherwise the stage reached and the rest of the stream.
pub open spec fn read_tokens(stage: FrameStage, s: Seq<u8>, n: nat) -> Option<
    (FrameStage, Seq<u8>),
>
    decreases n,
{
    if n == 0 {
        Some((stage, s))
    } else {
        let k = cut_len(read_step(stage), s);
        let token = s.subrange(0, k);
        if !token_ok(stage, token) {
            None
        } else {
            read_tokens(stage_after(stage), s.subrange(k, s.len() as int), (n - 1) as nat)
        }
    }
}

/// The method and body of a well-formed request: the method is valid UTF-8 without a newline
/// and the body holds no carriage return.
pub open spec fn well_formed_request(method: Seq<u8>, body: Seq<u8>) -> bool {
    &&& valid_utf8(method)
    &&& !method.contains(NEWLINE)
    &&& !body.contains(CARRIAGE_RETURN)
}

/// The stream of the frames of `reqs`, one after another.
pub open spec fn request_stream(reqs: Seq<(Seq<u8>, Seq<u8>)>) -> Seq<u8>
    decreases reqs.len(),
{
    if reqs.len() == 0 {
        Seq::empty()
    } else {
        request_frame(reqs[0].0, reqs[0].1) + request_stream(reqs.drop_first())
    }
}

/// Cutting up to a delimiter that `x` lacks takes `x` and the delimiter.
proof fn lemma_cut_until(x: Seq<u8>, d: u8, y: Seq<u8>)
    requires
        !x.contains(d),
    ensures
        cut_until(x + seq![d] + y, d) == x.len() + 1,
    decreases x.len(),
{
    let s = x + seq![d] + y;
    if x.len() == 0 {
        assert(s[0] == d);
    } else {
        assert(s[0] == x[0]);
        assert(x[0] != d) by {
            if x[0] == d {
                assert(x.contains(d));
            }
        }
        assert(!x.drop_first().contains(d)) by {
            if x.drop_first().contains(d) {
                let i = choose|i: int| 0 <= i < x.drop_first().len() && x.drop_first()[i] == d;
                assert(x[i + 1] == d);
            }
        }
        lemma_cut_until(x.drop_first(), d, y);
        assert(s.drop_first() =~= x.drop_first() + seq![d] + y);
    }
}

/// A well-formed request frame followed by any bytes is read, token by token from the
/// identifier, as exactly that request, and leaves the parser waiting for the next identifier
/// with the following bytes untouched.
pub proof fn lemma_request_frame_reads(method: Seq<u8>, body: Seq<u8>, rest: Seq<u8>)
    requires
        well_formed_request(method, body),
    ensures
        ({
            let s = request_frame(method, body) + rest;
            let t0 = s.subrange(0, 4);
            let s1 = s.subrange(4, s.len() as int);
            let k1 = cut_len(read_step(FrameStage::Method), s1);
            let t1 = s1.subrange(0, k1);
            let s2 = s1.subrange(k1, s1.len() as int);
            let k2 = cut_len(read_step(FrameStage::Body), s2);
            let t2 = s2.subrange(0, k2);
            let s3 = s2.subrange(k2, s2.len() as int);
            let t3 = s3.subrange(0, 5);
            &&& cut_len(read_step(FrameStage::Identifier), s) == 4
            &&& token_ok(FrameStage::Identifier, t0)
            &&& token_ok(FrameStage::Method, t1) && t1.drop_last() == method
            &&& token_ok(FrameStage::Body, t2) && t2.drop_last() == body
            &&& cut_len(read_step(FrameStage::Terminator), s3) == 5
            &&& token_ok(FrameStage::Terminator, t3)
            &&& stage_after(FrameStage::Terminator) == FrameStage::Identifier
            &&& s3.subrange(5, s3.len() as int) == rest
        }),
{
    let s = request_frame(method, body) + rest;
    let s1 = s.subrange(4, s.len() as int);
    assert(s.subrange(0, 4) =~= request_identifier());
    let after_method = body + seq![CARRIAGE_RETURN] + terminator() + rest;
    assert(s1 =~= method + seq![NEWLINE] + after_method);
    lemma_cut_until(method, NEWLINE, after_method);
    let k1: int = method.len() as int + 1;
    assert(s1.subrange(0, k1) =~= method + seq![NEWLINE]);
    assert((method + seq![NEWLINE]).drop_last() =~= method);
    let s2 = s1.subrange(k1, s1.len() as int);
    let after_body = terminator() + rest;
    assert(s2 =~= body + seq![CARRIAGE_RETURN] + after_body);
    lemma_cut_until(body, CARRIAGE_RETURN, after_body);
    let k2: int = body.len() as int + 1;
    assert(s2.subrange(0, k2) =~= body + seq![CARRIAGE_RETURN]);
    assert((body + seq![CARRIAGE_RETURN]).drop_last() =~= body);
    let s3 = s2.subrange(k2, s2.len() as int);
    assert(s3 =~= terminator() + rest);
    assert(s3.subrange(0, 5) =~= terminator());
    assert(s3.subrange(5, s3.len() as int) =~= rest);
}

/// Any number of well-formed requests sent one after another on a connection are read, from
/// the identifier, four tokens each, every token acceptable, back at the identifier after
/// each request and with nothing of the stream left over.
pub proof fn lemma_consecutive_requests(reqs: Seq<(Seq<u8>, Seq<u8>)>)
    requires
        forall|i: int| 0 <= i < reqs.len() ==> well_formed_request(#[trigger] reqs[i].0, reqs[i].1),
    ensures
        read_tokens(FrameStage::Identifier, request_stream(reqs), 4 * reqs.len()) matches Some(
            (end, rest),
        ) && end == FrameStage::Identifier && rest.len() == 0,
    decreases reqs.len(),
{
    if reqs.len() == 0 {
    } else {
        let m = reqs[0].0;
        let b = reqs[0].1;
        assert(well_formed_request(reqs[0].0, reqs[0].1));
        let tail = reqs.drop_first();
        assert forall|i: int| 0 <= i < tail.len() implies well_formed_request(
            #[trigger] tail[i].0,
            tail[i].1,
        ) by {
            assert(tail[i] == reqs[i + 1]);
            assert(well_formed_request(reqs[i + 1].0, reqs[i + 1].1));
        }
        lemma_consecutive_requests(tail);
        lemma_request_frame_reads(m, b, request_stream(tail));
        let n = 4 * reqs.len();
        assert(n - 1 - 1 - 1 - 1 == 4 * tail.len());
        reveal_with_fuel(read_tokens, 5);
    }
}

/// After a bad token, at any stage, the parser waits for an identifier again, so a
/// well-formed request that follows is read as that request.
pub proof fn lemma_resync_after_bad_request(
    stage: FrameStage,
    bad: Seq<u8>,
    method: Seq<u8>,
    body: Seq<u8>,
    rest: Seq<u8>,
)
    requires
        !token_ok(stage, bad),
        well_formed_request(method, body),
    ensures
        accept_stage(stage, bad) == FrameStage::Identifier,
        read_tokens(FrameStage::Identifier, request_frame(method, body) + rest, 4) == Some(
            (FrameStage::Identifier, rest),
        ),
{
    lemma_request_frame_reads(method, body, rest);
    reveal_with_fuel(read_tokens, 5);
}

} // verus!
