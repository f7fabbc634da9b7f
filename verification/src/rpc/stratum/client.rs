//! The Stratum session: connect, authorize, then take jobs and hand back
//! solutions, one JSON message per line.
//!
//! The session does no I/O of its own. Whoever drives it dials the peer, reads
//! and writes the socket and tells the session what came of it; the session
//! keeps the buffers and decides what follows.

use super::error::{Error, Kind};
use super::frame::{
    after_first_frame, first_frame, frames, has_frame, remainder, take_frame, LINE_FEED,
};
use super::runner::{decoded, Rpc, RpcView};
use crate::rpc::message::{json_string, to_json_string};
use vstd::prelude::*;
use vstd::utf8::encode_utf8;

verus! {

/// Where a session stands.
#[derive(Clone, Copy, Debug, PartialEq, Eq, Structural)]
pub enum State {
    /// The peer is being dialled.
    Connecting,
    /// The credentials were sent; the peer's answer is awaited.
    Authenticating,
    /// The peer took the credentials; jobs come in and solutions go out.
    Working,
}

/// What came of dialling the peer.
#[derive(Debug, PartialEq, Eq)]
pub enum Connect {
    /// Nothing yet.
    Pending,
    /// The connection stands.
    Ready,
    /// The dial failed; the text says why.
    Failed(String),
}

/// What came of reading the socket.
#[derive(Debug, PartialEq, Eq)]
pub enum Input {
    /// Nothing new.
    Pending,
    /// These bytes were read. No bytes mean that the peer closed the
    /// connection.
    Read(Vec<u8>),
    /// The read failed; the text says why.
    Failed(String),
}

/// What a driver tells a session.
#[derive(Debug, PartialEq, Eq)]
pub enum Event {
    /// What came of dialling the peer.
    Connect(Connect),
    /// What came of reading the socket.
    Input(Input),
    /// A search has ended with a solution; this is the request that submits
    /// it, as a line of JSON without its line feed.
    Queued(String),
}

/// What a session tells its driver.
#[derive(Debug, PartialEq, Eq)]
pub enum Polled {
    /// The session waits for more to happen.
    NotReady,
    /// The session went on to its next state.
    Advanced,
    /// The peer sent this message; it is to be dispatched.
    Request(Rpc),
}

/// The request that authorizes a miner, given its account and its password
/// as JSON strings.
pub open spec fn authorize_text(id: Seq<char>, pwd: Seq<char>) -> Seq<char> {
    "{\"jsonrpc\":\"2.0\",\"id\":1,\"method\":\"mining.authorize\",\"params\":["@ + id + ","@
        + pwd + "]}"@
}

/// A message as it goes over the wire: its bytes, then a line feed.
pub open spec fn line_of(text: Seq<char>) -> Seq<u8> {
    encode_utf8(text).push(LINE_FEED)
}

/// Whether a message is the peer's consent to the credentials: the answer to
/// request 1, with the result `true`.
pub open spec fn is_consent(rpc: RpcView) -> bool {
    rpc.id == Some(1usize) && rpc.result == Some(true)
}

/// What ends a session, as values.
pub struct Failure {
    pub kind: Kind,
    pub cause: Option<Seq<char>>,
}

/// The kind and the cause of an error.
pub open spec fn failure_of(error: Error) -> Failure {
    Failure { kind: error.spec_kind(), cause: error.spec_cause() }
}

/// What a read comes to, and the input buffer after it.
pub struct ReadOutcome {
    /// The bytes that stay buffered.
    pub rd: Seq<u8>,
    /// The message that was taken from the buffer, if one was whole, or what
    /// ends the session.
    pub result: Result<Option<RpcView>, Failure>,
}

/// What taking a message from the buffer `buf` comes to.
///
/// Where the buffer holds a line feed, the bytes before the first one are
/// taken out as one message, and the line feed with them; the bytes after it
/// stay. A message that is no JSON value ends the session. A buffer without a
/// line feed stays as it is.
pub open spec fn take_outcome(buf: Seq<u8>) -> ReadOutcome {
    if !has_frame(buf) {
        ReadOutcome { rd: buf, result: Ok(None) }
    } else {
        ReadOutcome {
            rd: after_first_frame(buf),
            result: match decoded(first_frame(buf)) {
                Some(rpc) => Ok(Some(rpc)),
                None => Err(Failure { kind: Kind::Incomplete, cause: None }),
            },
        }
    }
}

/// What a read comes to for a session that has `rd` buffered.
///
/// A failed read ends the session, and so does a read of no bytes: the peer
/// has closed the connection. Bytes that were read join the buffer, and the
/// first message is taken from it. Where the socket has nothing new, a message
/// that is whole in the buffer already is taken all the same, so that every
/// line comes out, one per read.
pub open spec fn read_outcome(rd: Seq<u8>, input: Input) -> ReadOutcome {
    match input {
        Input::Pending => take_outcome(rd),
        Input::Failed(cause) => ReadOutcome {
            rd,
            result: Err(Failure { kind: Kind::Io, cause: Some(cause@) }),
        },
        Input::Read(data) => if data@.len() == 0 {
            ReadOutcome { rd, result: Err(Failure { kind: Kind::Closed, cause: None }) }
        } else {
            take_outcome(rd + data@)
        },
    }
}

/// Whether `result` is the message or the error that `expected` names.
pub open spec fn read_is(
    result: Result<Option<Rpc>, Error>,
    expected: Result<Option<RpcView>, Failure>,
) -> bool {
    match (result, expected) {
        (Ok(Some(rpc)), Ok(Some(view))) => rpc@ == view,
        (Ok(None), Ok(None)) => true,
        (Err(error), Err(failure)) => failure_of(error) == failure,
        _ => false,
    }
}

/// Every line comes out, in order and one per read: a read takes the first
/// whole frame of the buffer and leaves the frames after it, and the part of a
/// frame that has come so far, as they are.
pub proof fn lemma_reads_take_frames_in_order(buf: Seq<u8>)
    requires
        has_frame(buf),
    ensures
        take_outcome(buf).result is Ok ==> take_outcome(buf).result == Ok::<
            Option<RpcView>,
            Failure,
        >(decoded(first_frame(buf))),
        take_outcome(buf).result is Err ==> decoded(first_frame(buf)) is None,
        frames(buf) == seq![first_frame(buf)] + frames(take_outcome(buf).rd),
        remainder(buf) == remainder(take_outcome(buf).rd),
{
}

/// What the peer's answer to the credentials comes to: its consent lets the
/// session work, any other message ends it.
pub open spec fn consent_outcome(read: Result<Option<RpcView>, Failure>) -> Result<bool, Failure> {
    match read {
        Ok(Some(rpc)) => if is_consent(rpc) {
            Ok(true)
        } else {
            Err(Failure { kind: Kind::Authenticate, cause: None })
        },
        Ok(None) => Ok(false),
        Err(failure) => Err(failure),
    }
}

/// Whether `result` is the answer or the error that `expected` names.
pub open spec fn answer_is(result: Result<bool, Error>, expected: Result<bool, Failure>) -> bool {
    match (result, expected) {
        (Ok(got), Ok(want)) => got == want,
        (Err(error), Err(failure)) => failure_of(error) == failure,
        _ => false,
    }
}

/// A Stratum session.
pub struct Serve {
    id: String,
    pwd: String,
    rd: Vec<u8>,
    wr: Vec<u8>,
    state: State,
}

impl Serve {
    /// The account the session authorizes as.
    pub closed spec fn spec_id(&self) -> Seq<char> {
        self.id@
    }

    /// The password the session authorizes with.
    pub closed spec fn spec_pwd(&self) -> Seq<char> {
        self.pwd@
    }

    /// The bytes that were read and not yet taken out as a message.
    pub closed spec fn spec_rd(&self) -> Seq<u8> {
        self.rd@
    }

    /// The bytes that wait to be written to the socket.
    pub closed spec fn spec_wr(&self) -> Seq<u8> {
        self.wr@
    }

    /// Where the session stands.
    pub closed spec fn spec_state(&self) -> State {
        self.state
    }

    /// Whether two sessions have the same credentials.
    pub open spec fn same_credentials(&self, other: &Serve) -> bool {
        self.spec_id() == other.spec_id() && self.spec_pwd() == other.spec_pwd()
    }

    /// Whether two sessions have the same buffers.
    pub open spec fn same_buffers(&self, other: &Serve) -> bool {
        self.spec_rd() == other.spec_rd() && self.spec_wr() == other.spec_wr()
    }

    /// A session for the given credentials: it is connecting, and nothing is
    /// buffered.
    pub fn new(id: String, pwd: String) -> (serve: Serve)
        ensures
            serve.spec_id() == id@,
            serve.spec_pwd() == pwd@,
            serve.spec_rd() == Seq::<u8>::empty(),
            serve.spec_wr() == Seq::<u8>::empty(),
            serve.spec_state() == State::Connecting,
    {
        Serve { id, pwd, rd: Vec::new(), wr: Vec::new(), state: State::Connecting }
    }

    /// Where the session stands.
    pub fn state(&self) -> (state: State)
        ensures
            state == self.spec_state(),
    {
        self.state
    }

    /// The bytes that wait to be written to the socket.
    pub fn output(&self) -> (bytes: &[u8])
        ensures
            bytes@ == self.spec_wr(),
    {
        self.wr.as_slice()
    }

    /// Notes that the socket took the first `n` of the bytes that wait to be
    /// written.
    pub fn written(&mut self, n: usize)
        requires
            n <= old(self).spec_wr().len(),
        ensures
            final(self).spec_wr() == old(self).spec_wr().skip(n as int),
            final(self).spec_rd() == old(self).spec_rd(),
            final(self).spec_state() == old(self).spec_state(),
            final(self).same_credentials(old(self)),
    {
        let rest = self.wr.split_off(n);
        self.wr = rest;
        assert(self.wr@ =~= old(self).wr@.skip(n as int));
    }

    /// Whether the connection stands. A failed dial ends the session.
    pub fn connected(&self, connect: Connect) -> (result: Result<bool, Error>)
        ensures
            answer_is(
                result,
                match connect {
                    Connect::Pending => Ok(false),
                    Connect::Ready => Ok(true),
                    Connect::Failed(cause) => Err(
                        Failure { kind: Kind::Connect, cause: Some(cause@) },
                    ),
                },
            ),
    {
        match connect {
            Connect::Pending => Ok(false),
            Connect::Ready => Ok(true),
            Connect::Failed(cause) => Err(Error::new_connect(cause)),
        }
    }

    /// Queues the request that authorizes the miner. Credentials that cannot
    /// be written as JSON end the session.
    pub fn authenticate(&mut self) -> (result: Result<(), Error>)
        ensures
            final(self).spec_rd() == old(self).spec_rd(),
            final(self).spec_state() == old(self).spec_state(),
            final(self).same_credentials(old(self)),
            match (json_string(old(self).spec_id()), json_string(old(self).spec_pwd())) {
                (Some(id), Some(pwd)) => result is Ok && final(self).spec_wr() == old(
                    self,
                ).spec_wr() + line_of(authorize_text(id, pwd)),
                _ => result matches Err(error) && failure_of(error) == (Failure {
                    kind: Kind::Incomplete,
                    cause: None,
                }) && final(self).spec_wr() == old(self).spec_wr(),
            },
    {
        let id = match to_json_string(self.id.as_str()) {
            Some(id) => id,
            None => {
                return Err(Error::new_incomplete());
            },
        };
        let pwd = match to_json_string(self.pwd.as_str()) {
            Some(pwd) => pwd,
            None => {
                return Err(Error::new_incomplete());
            },
        };
        let mut request = String::from_str(
            "{\"jsonrpc\":\"2.0\",\"id\":1,\"method\":\"mining.authorize\",\"params\":[",
        );
        request.append(id.as_str());
        request.append(",");
        request.append(pwd.as_str());
        request.append("]}");
        self.write(request.as_str());
        Ok(())
    }

    /// Takes the peer's answer to the credentials from what was read. Any
    /// message but the peer's consent ends the session.
    pub fn authenticated(&mut self, input: Input) -> (result: Result<bool, Error>)
        ensures
            final(self).spec_wr() == old(self).spec_wr(),
            final(self).spec_state() == old(self).spec_state(),
            final(self).same_credentials(old(self)),
            final(self).spec_rd() == read_outcome(old(self).spec_rd(), input).rd,
            answer_is(result, consent_outcome(read_outcome(old(self).spec_rd(), input).result)),
    {
        match self.read(input) {
            Ok(Some(res)) => {
                let id_is_one = match res.id {
                    Some(id) => id == 1,
                    None => false,
                };
                let result_is_true = match res.result {
                    Some(result) => result,
                    None => false,
                };
                if id_is_one && result_is_true {
                    Ok(true)
                } else {
                    Err(Error::new_authenticate())
                }
            },
            Ok(None) => Ok(false),
            Err(error) => Err(error),
        }
    }

    /// One step of a working session: queues the request of a search that has
    /// ended, if there is one, and takes the next message from what was read.
    pub fn working(&mut self, queued: Option<String>, input: Input) -> (result: Result<
        Option<Rpc>,
        Error,
    >)
        ensures
            final(self).spec_state() == old(self).spec_state(),
            final(self).same_credentials(old(self)),
            final(self).spec_wr() == match queued {
                Some(text) => old(self).spec_wr() + line_of(text@),
                None => old(self).spec_wr(),
            },
            final(self).spec_rd() == read_outcome(old(self).spec_rd(), input).rd,
            read_is(result, read_outcome(old(self).spec_rd(), input).result),
    {
        match queued {
            Some(text) => {
                self.write(text.as_str());
            },
            None => {},
        }
        self.read(input)
    }

    /// Takes the next message from what was read; see `read_outcome`.
    pub fn read(&mut self, input: Input) -> (result: Result<Option<Rpc>, Error>)
        ensures
            final(self).spec_wr() == old(self).spec_wr(),
            final(self).spec_state() == old(self).spec_state(),
            final(self).same_credentials(old(self)),
            final(self).spec_rd() == read_outcome(old(self).spec_rd(), input).rd,
            read_is(result, read_outcome(old(self).spec_rd(), input).result),
    {
        match input {
            Input::Pending => {},
            Input::Failed(cause) => {
                return Err(Error::new_io(cause));
            },
            Input::Read(data) => {
                if data.len() == 0 {
                    return Err(Error::new_closed());
                }
                self.rd.extend_from_slice(data.as_slice());
                assert(self.rd@ =~= old(self).rd@ + data@);
            },
        }
        match take_frame(&mut self.rd) {
            Some(line) => match Rpc::decode(line.as_slice()) {
                Some(rpc) => Ok(Some(rpc)),
                None => Err(Error::new_incomplete()),
            },
            None => Ok(None),
        }
    }

    /// Takes one event and decides what follows.
    ///
    /// - Connecting: once the connection stands, the request that authorizes
    ///   the miner is queued and the session awaits the answer. A failed dial
    ///   ends the session.
    /// - Authenticating: the first message that is read has to be the peer's
    ///   consent; the session then works. Any other message ends the session.
    /// - Working: each message that is read is handed out to be dispatched.
    /// - In any state, the request of a search that has ended is queued for
    ///   the socket.
    ///
    /// An event that the state has no use for changes nothing. An error ends
    /// the session; there is no way back from it.
    pub fn poll(&mut self, event: Event) -> (result: Result<Polled, Error>)
        ensures
            final(self).same_credentials(old(self)),
            match event {
                Event::Queued(text) => {
                    &&& result == Ok::<Polled, Error>(Polled::NotReady)
                    &&& final(self).spec_state() == old(self).spec_state()
                    &&& final(self).spec_rd() == old(self).spec_rd()
                    &&& final(self).spec_wr() == old(self).spec_wr() + line_of(text@)
                },
                Event::Connect(connect) => if old(self).spec_state() == State::Connecting {
                    match connect {
                        Connect::Pending => {
                            &&& result == Ok::<Polled, Error>(Polled::NotReady)
                            &&& final(self).spec_state() == State::Connecting
                            &&& final(self).same_buffers(old(self))
                        },
                        Connect::Failed(cause) => {
                            &&& result matches Err(error) && failure_of(error) == (Failure {
                                kind: Kind::Connect,
                                cause: Some(cause@),
                            })
                            &&& final(self).spec_state() == State::Connecting
                            &&& final(self).same_buffers(old(self))
                        },
                        Connect::Ready => match (
                            json_string(old(self).spec_id()),
                            json_string(old(self).spec_pwd()),
                        ) {
                            (Some(id), Some(pwd)) => {
                                &&& result == Ok::<Polled, Error>(Polled::Advanced)
                                &&& final(self).spec_state() == State::Authenticating
                                &&& final(self).spec_rd() == old(self).spec_rd()
                                &&& final(self).spec_wr() == old(self).spec_wr() + line_of(
                                    authorize_text(id, pwd),
                                )
                            },
                            _ => {
                                &&& result matches Err(error) && failure_of(error) == (Failure {
                                    kind: Kind::Incomplete,
                                    cause: None,
                                })
                                &&& final(self).spec_state() == State::Connecting
                                &&& final(self).same_buffers(old(self))
                            },
                        },
                    }
                } else {
                    &&& result == Ok::<Polled, Error>(Polled::NotReady)
                    &&& final(self).spec_state() == old(self).spec_state()
                    &&& final(self).same_buffers(old(self))
                },
                Event::Input(input) => if old(self).spec_state() == State::Connecting {
                    &&& result == Ok::<Polled, Error>(Polled::NotReady)
                    &&& final(self).spec_state() == State::Connecting
                    &&& final(self).same_buffers(old(self))
                } else {
                    let outcome = read_outcome(old(self).spec_rd(), input);
                    &&& final(self).spec_wr() == old(self).spec_wr()
                    &&& final(self).spec_rd() == outcome.rd
                    &&& match outcome.result {
                        Ok(Some(rpc)) => if old(self).spec_state() == State::Working {
                            &&& result matches Ok(Polled::Request(req)) && req@ == rpc
                            &&& final(self).spec_state() == State::Working
                        } else if is_consent(rpc) {
                            &&& result == Ok::<Polled, Error>(Polled::Advanced)
                            &&& final(self).spec_state() == State::Working
                        } else {
                            &&& result matches Err(error) && failure_of(error) == (Failure {
                                kind: Kind::Authenticate,
                                cause: None,
                            })
                            &&& final(self).spec_state() == State::Authenticating
                        },
                        Ok(None) => {
                            &&& result == Ok::<Polled, Error>(Polled::NotReady)
                            &&& final(self).spec_state() == old(self).spec_state()
                        },
                        Err(failure) => {
                            &&& result matches Err(error) && failure_of(error) == failure
                            &&& final(self).spec_state() == old(self).spec_state()
                        },
                    }
                },
            },
    {
        match event {
            Event::Queued(text) => {
                self.write(text.as_str());
                Ok(Polled::NotReady)
            },
            Event::Connect(connect) => match self.state {
                State::Connecting => {
                    match self.connected(connect) {
                        Ok(true) => {},
                        Ok(false) => {
                            return Ok(Polled::NotReady);
                        },
                        Err(error) => {
                            return Err(error);
                        },
                    }
                    match self.authenticate() {
                        Ok(()) => {},
                        Err(error) => {
                            return Err(error);
                        },
                    }
                    self.state = State::Authenticating;
                    Ok(Polled::Advanced)
                },
                _ => Ok(Polled::NotReady),
            },
            Event::Input(input) => match self.state {
                State::Connecting => Ok(Polled::NotReady),
                State::Authenticating => match self.authenticated(input) {
                    Ok(true) => {
                        self.state = State::Working;
                        Ok(Polled::Advanced)
                    },
                    Ok(false) => Ok(Polled::NotReady),
                    Err(error) => Err(error),
                },
                State::Working => match self.working(None, input) {
                    Ok(Some(req)) => Ok(Polled::Request(req)),
                    Ok(None) => Ok(Polled::NotReady),
                    Err(error) => Err(error),
                },
            },
        }
    }

    /// Queues a message for the socket: its bytes, then a line feed.
    pub fn write(&mut self, text: &str)
        ensures
            final(self).spec_wr() == old(self).spec_wr() + line_of(text@),
            final(self).spec_rd() == old(self).spec_rd(),
            final(self).spec_state() == old(self).spec_state(),
            final(self).same_credentials(old(self)),
    {
        self.wr.extend_from_slice(text.as_bytes());
        self.wr.push(LINE_FEED);
        assert(self.wr@ =~= old(self).wr@ + line_of(text@));
    }
}

} // verus!
