//! The errors that end a Stratum session.

use vstd::prelude::*;

verus! {

/// What went wrong in a Stratum session.
#[derive(Clone, Copy, Debug, PartialEq, Eq, Structural)]
pub enum Kind {
    /// A message reached its end, but is not complete.
    Incomplete,
    /// The peer closed the connection.
    Closed,
    /// Reading from or writing to the network failed.
    Io,
    /// The connection could not be made.
    Connect,
    /// The peer refused the credentials.
    Authenticate,
    /// The executor refused to take a task.
    Execute,
}

/// The description of each kind of error.
pub open spec fn description_of(kind: Kind) -> Seq<char> {
    match kind {
        Kind::Incomplete => "parsed JSON message from remote is incomplete"@,
        Kind::Closed => "connection closed"@,
        Kind::Connect => "an error occurred trying to connect"@,
        Kind::Authenticate => "an error occurred trying to authenticate"@,
        Kind::Execute => "executor failed to spawn task"@,
        Kind::Io => "an IO error occurred"@,
    }
}

/// The text of an error: its description, and after a colon and a blank its
/// cause where it has one.
pub open spec fn message_of(kind: Kind, cause: Option<Seq<char>>) -> Seq<char> {
    match cause {
        Some(text) => description_of(kind) + ": "@ + text,
        None => description_of(kind),
    }
}

/// An error that ends a Stratum session.
#[derive(Debug, PartialEq, Eq)]
pub struct Error {
    inner: Box<ErrorImpl>,
}

#[derive(Debug, PartialEq, Eq)]
struct ErrorImpl {
    kind: Kind,
    cause: Option<String>,
}

impl Error {
    /// The kind of the error.
    pub closed spec fn spec_kind(&self) -> Kind {
        self.inner.kind
    }

    /// The text of what caused the error, where a cause is known.
    pub closed spec fn spec_cause(&self) -> Option<Seq<char>> {
        match self.inner.cause {
            Some(text) => Some(text@),
            None => None,
        }
    }

    /// An error of the given kind and cause.
    pub fn new(kind: Kind, cause: Option<String>) -> (error: Error)
        ensures
            error.spec_kind() == kind,
            error.spec_cause() == match cause {
                Some(text) => Some(text@),
                None => None,
            },
    {
        Error { inner: Box::new(ErrorImpl { kind, cause }) }
    }

    /// The network failed, as `cause` says.
    pub fn new_io(cause: String) -> (error: Error)
        ensures
            error.spec_kind() == Kind::Io,
            error.spec_cause() == Some(cause@),
    {
        Error::new(Kind::Io, Some(cause))
    }

    /// The connection could not be made, as `cause` says.
    pub fn new_connect(cause: String) -> (error: Error)
        ensures
            error.spec_kind() == Kind::Connect,
            error.spec_cause() == Some(cause@),
    {
        Error::new(Kind::Connect, Some(cause))
    }

    /// The peer closed the connection.
    pub fn new_closed() -> (error: Error)
        ensures
            error.spec_kind() == Kind::Closed,
            error.spec_cause() is None,
    {
        Error::new(Kind::Closed, None)
    }

    /// A message from the peer is not complete.
    pub fn new_incomplete() -> (error: Error)
        ensures
            error.spec_kind() == Kind::Incomplete,
            error.spec_cause() is None,
    {
        Error::new(Kind::Incomplete, None)
    }

    /// The peer refused the credentials.
    pub fn new_authenticate() -> (error: Error)
        ensures
            error.spec_kind() == Kind::Authenticate,
            error.spec_cause() is None,
    {
        Error::new(Kind::Authenticate, None)
    }

    /// The executor refused to take a task.
    pub fn new_execute() -> (error: Error)
        ensures
            error.spec_kind() == Kind::Execute,
            error.spec_cause() is None,
    {
        Error::new(Kind::Execute, None)
    }

    /// The kind of the error.
    pub fn kind(&self) -> (kind: Kind)
        ensures
            kind == self.spec_kind(),
    {
        self.inner.kind
    }

    /// The text of what caused the error, where a cause is known.
    pub fn cause(&self) -> (cause: Option<&str>)
        ensures
            match cause {
                Some(text) => self.spec_cause() == Some(text@),
                None => self.spec_cause() is None,
            },
    {
        match &self.inner.cause {
            Some(text) => Some(text.as_str()),
            None => None,
        }
    }

    /// What the kind of the error means, in words.
    pub fn description(&self) -> (text: &'static str)
        ensures
            text@ == description_of(self.spec_kind()),
    {
        match self.inner.kind {
            Kind::Incomplete => "parsed JSON message from remote is incomplete",
            Kind::Closed => "connection closed",
            Kind::Connect => "an error occurred trying to connect",
            Kind::Authenticate => "an error occurred trying to authenticate",
            Kind::Execute => "executor failed to spawn task",
            Kind::Io => "an IO error occurred",
        }
    }

    /// The text of the error: its description, and its cause where it has one.
    pub fn to_string(&self) -> (text: String)
        ensures
            text@ == message_of(self.spec_kind(), self.spec_cause()),
    {
        let mut text = String::from_str(self.description());
        match &self.inner.cause {
            Some(cause) => {
                text.append(": ");
                text.append(cause.as_str());
            },
            None => {},
        }
        text
    }
}

} // verus!
