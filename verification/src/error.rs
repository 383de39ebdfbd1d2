//! The errors that the transport reports.

use vstd::prelude::*;
use vstd::string::StringExecFns;

verus! {

/// Why a byte sequence or a value could not be turned into what was asked for.
#[derive(Clone, Copy, Debug, PartialEq, Eq, Structural)]
pub enum DecodeError {
    /// Some bytes are still missing; waiting for more input may help.
    Truncated,
    /// The bytes do not form a valid message; the stream cannot be used further.
    Invalid,
    /// A value nests deeper than the reader is willing to follow.
    DepthLimitExceeded,
    /// The reader failed for a reason it did not name.
    UnknownIo,
    /// A well-formed value does not have the shape that a typed result needs.
    UnexpectedShape,
}

impl DecodeError {
    /// Whether waiting for more bytes can cure the error.
    pub open spec fn is_recoverable(self) -> bool {
        self == DecodeError::Truncated
    }

    /// Whether waiting for more bytes can cure the error.
    #[verifier::when_used_as_spec(is_recoverable)]
    pub fn recoverable(self) -> (out: bool)
        ensures
            out == self.is_recoverable(),
    {
        match self {
            DecodeError::Truncated => true,
            _ => false,
        }
    }
}

/// Why a connection ended.
#[derive(Clone, Copy, Debug, PartialEq, Eq, Structural)]
pub enum CloseReason {
    /// A read returned no bytes or failed: the peer is gone.
    Disconnected,
    /// A write to the socket failed.
    WriteFailed,
    /// The bytes received do not form a message.
    Decode(DecodeError),
}

/// What a caller is told when an operation on the connection fails.
#[derive(Clone, Debug, PartialEq, Eq)]
pub enum NetworkError {
    /// The wait for a response ended without one.
    Recv,
    /// A read or a write on the socket failed.
    Io,
    /// The message could not be handed over for sending.
    Send { message: String },
    /// The bytes received could not be decoded.
    Decode(DecodeError),
    /// The caller withdrew the request before its response came.
    Cancelled,
    /// No response came within the time allowed.
    TimedOut,
}

/// The mathematical content of a [`NetworkError`].
pub enum NetworkErrorModel {
    Recv,
    Io,
    Send { message: Seq<char> },
    Decode(DecodeError),
    Cancelled,
    TimedOut,
}

impl View for NetworkError {
    type V = NetworkErrorModel;

    open spec fn view(&self) -> NetworkErrorModel {
        match self {
            NetworkError::Recv => NetworkErrorModel::Recv,
            NetworkError::Io => NetworkErrorModel::Io,
            NetworkError::Send { message } => NetworkErrorModel::Send { message: message@ },
            NetworkError::Decode(error) => NetworkErrorModel::Decode(*error),
            NetworkError::Cancelled => NetworkErrorModel::Cancelled,
            NetworkError::TimedOut => NetworkErrorModel::TimedOut,
        }
    }
}

/// What the callers whose requests were in flight are told when the
/// connection ends for `reason`: the decode error that ended it, or that input
/// and output have failed.
pub open spec fn closed_error(reason: CloseReason) -> NetworkErrorModel {
    match reason {
        CloseReason::Disconnected => NetworkErrorModel::Io,
        CloseReason::WriteFailed => NetworkErrorModel::Io,
        CloseReason::Decode(error) => NetworkErrorModel::Decode(error),
    }
}

/// What an error says in words.
pub open spec fn error_text(error: NetworkErrorModel) -> Seq<char> {
    match error {
        NetworkErrorModel::Recv => "received because the channel is empty or closed"@,
        NetworkErrorModel::Io => "issue with read or write I/O operation"@,
        NetworkErrorModel::Send { message } => "Could not send message: "@ + message,
        NetworkErrorModel::Decode(_) => "Could not decode the message that was received"@,
        NetworkErrorModel::Cancelled => "the request was cancelled"@,
        NetworkErrorModel::TimedOut => "no response came in time"@,
    }
}

/// What a caller is told who offers a message after the connection has ended
/// for `reason`.
pub open spec fn closed_text(reason: CloseReason) -> Seq<char> {
    match reason {
        CloseReason::Disconnected => "the connection is closed: the peer is gone"@,
        CloseReason::WriteFailed => "the connection is closed: a write failed"@,
        CloseReason::Decode(_) => "the connection is closed: the bytes received were no message"@,
    }
}

impl NetworkError {
    /// The error for a message offered after the connection has ended for
    /// `reason`: the message could not be sent, and why.
    pub fn refused_after(reason: CloseReason) -> (out: NetworkError)
        ensures
            out@ == (NetworkErrorModel::Send { message: closed_text(reason) }),
    {
        let message = match reason {
            CloseReason::Disconnected => "the connection is closed: the peer is gone".to_owned(),
            CloseReason::WriteFailed => "the connection is closed: a write failed".to_owned(),
            CloseReason::Decode(_) => {
                "the connection is closed: the bytes received were no message".to_owned()
            },
        };
        NetworkError::Send { message }
    }

    /// What the error says in words.
    pub fn to_text(&self) -> (out: String)
        ensures
            out@ == error_text(self@),
    {
        match self {
            NetworkError::Recv => "received because the channel is empty or closed".to_owned(),
            NetworkError::Io => "issue with read or write I/O operation".to_owned(),
            NetworkError::Send { message } => {
                let mut out = "Could not send message: ".to_owned();
                out.append(message.as_str());
                out
            },
            NetworkError::Decode(_) => "Could not decode the message that was received".to_owned(),
            NetworkError::Cancelled => "the request was cancelled".to_owned(),
            NetworkError::TimedOut => "no response came in time".to_owned(),
        }
    }

    /// The error for the requests that were in flight when the connection
    /// ended for `reason`.
    pub fn after_close(reason: CloseReason) -> (out: NetworkError)
        ensures
            out@ == closed_error(reason),
    {
        match reason {
            CloseReason::Disconnected => NetworkError::Io,
            CloseReason::WriteFailed => NetworkError::Io,
            CloseReason::Decode(error) => NetworkError::Decode(error),
        }
    }
}

/// The result of an operation on the connection.
pub type NetworkResult<T> = Result<T, NetworkError>;

} // verus!
