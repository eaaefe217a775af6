//! The closed error taxonomy.
//!
//! Every fallible operation in the surrounding system classifies its failure
//! as one of the kinds below. The set is closed: callers match exhaustively
//! on it to decide between retrying and aborting, and a failure that
//! originates outside the taxonomy is wrapped in the [`ExternalError`]
//! envelope, which tags it with a fixed category while preserving its
//! rendered cause for diagnostics.
//!
//! Failures raised by outside libraries are converted at the call boundary by
//! the explicit, named conversion functions on [`DFError`]; no foreign error
//! value propagates past that boundary unclassified. Each kind renders to a
//! fixed, human-readable message through [`DFError::message`].

use vstd::prelude::*;
use crate::decimal::{dec_of, u64_to_dec};

verus! {

/// The fixed categories under which an outside failure can be wrapped.
#[derive(Clone, Copy, Debug, PartialEq, Eq, Structural)]
pub enum ErrorType {
    /// A failure of the storage layer.
    StorageError,
    /// A failure to parse an input.
    ParseError,
    /// A failure to serialize or deserialize a value.
    SerializeError,
    /// A failure in configuration handling.
    ConfigError,
    /// A failure to connect to a remote endpoint.
    ConnectError,
    /// A failure of the asynchronous runtime.
    AsyncRuntimeError,
    /// A failure raised by a plugin.
    PluginError,
}

/// The category's rendered name.
pub open spec fn error_type_name(t: ErrorType) -> Seq<char> {
    match t {
        ErrorType::StorageError => "StorageError"@,
        ErrorType::ParseError => "ParseError"@,
        ErrorType::SerializeError => "SerializeError"@,
        ErrorType::ConfigError => "ConfigError"@,
        ErrorType::ConnectError => "ConnectError"@,
        ErrorType::AsyncRuntimeError => "AsyncRuntimeError"@,
        ErrorType::PluginError => "PluginError"@,
    }
}

impl ErrorType {
    /// Renders the category's name.
    pub fn name(&self) -> (r: String)
        ensures
            r@ == error_type_name(*self),
    {
        match self {
            ErrorType::StorageError => String::from_str("StorageError"),
            ErrorType::ParseError => String::from_str("ParseError"),
            ErrorType::SerializeError => String::from_str("SerializeError"),
            ErrorType::ConfigError => String::from_str("ConfigError"),
            ErrorType::ConnectError => String::from_str("ConnectError"),
            ErrorType::AsyncRuntimeError => String::from_str("AsyncRuntimeError"),
            ErrorType::PluginError => String::from_str("PluginError"),
        }
    }
}

/// A failure that originates outside the taxonomy, tagged with a fixed
/// category. The original cause's rendering is preserved for diagnostics.
#[derive(Debug)]
pub struct ExternalError {
    /// The category the failure is classified under.
    pub etype: ErrorType,
    /// The rendered original cause, when one was attached.
    pub cause: Option<String>,
}

/// The envelope's rendered message: the category's name, followed by
/// `" cause: "` and the cause when one is attached.
pub open spec fn external_error_message(e: ExternalError) -> Seq<char> {
    match e.cause {
        Some(c) => error_type_name(e.etype) + " cause: "@ + c@,
        None => error_type_name(e.etype),
    }
}

impl ExternalError {
    /// A new envelope under `etype`, with no cause attached.
    pub fn new(etype: ErrorType) -> (r: ExternalError)
        ensures
            r.etype == etype,
            r.cause is None,
    {
        ExternalError { etype, cause: None }
    }

    /// The same envelope with `cause` attached.
    pub fn with_cause(self, cause: String) -> (r: ExternalError)
        ensures
            r.etype == self.etype,
            r.cause == Some(cause),
    {
        ExternalError { etype: self.etype, cause: Some(cause) }
    }

    /// Renders the envelope: `"{category} cause: {cause}"` when a cause is
    /// attached, `"{category}"` otherwise.
    pub fn message(&self) -> (r: String)
        ensures
            r@ == external_error_message(*self),
    {
        match &self.cause {
            Some(c) => self.etype.name().concat(" cause: ").concat(c.as_str()),
            None => self.etype.name(),
        }
    }
}

/// Context identifying a failed download from a remote peer.
#[derive(Debug)]
pub struct DownloadFromRemotePeerFailed {
    /// The number of the piece whose transfer failed.
    pub piece_number: u32,
    /// The identifier of the remote peer the piece was requested from.
    pub parent_id: String,
}

/// An HTTP-layer failure, carrying the response status code.
#[derive(Debug)]
pub struct HTTPError {
    /// The HTTP status code of the failing response.
    pub status_code: u16,
}

/// The condition under which a bounded channel send gave up: either the wait
/// timed out, or the channel was already closed. Both conditions are reported
/// as the same send-timeout kind.
#[derive(Clone, Copy, Debug, PartialEq, Eq, Structural)]
pub enum SendTimeoutCondition {
    /// The send waited out its deadline.
    Timeout,
    /// The receiving side was gone.
    Closed,
}

/// The closed set of failure kinds.
#[derive(Debug)]
pub enum DFError {
    /// An underlying I/O failure, carrying its rendered cause.
    IO(String),
    /// An internal-channel send failure, carrying its rendered cause.
    MpscSend(String),
    /// An internal-channel send timeout.
    SendTimeout,
    /// A failure of the named hashring.
    HashRing(String),
    /// The named host was not found.
    HostNotFound(String),
    /// The named task was not found.
    TaskNotFound(String),
    /// The named piece was not found.
    PieceNotFound(String),
    /// The named piece's state is marked failed.
    PieceStateIsFailed(String),
    /// Waiting for the named piece to finish timed out.
    WaitForPieceFinishedTimeout(String),
    /// No available manager was found.
    AvailableManagerNotFound,
    /// No available schedulers were found.
    AvailableSchedulersNotFound,
    /// A download from a remote peer failed.
    DownloadFromRemotePeerFailed(DownloadFromRemotePeerFailed),
    /// The named column family was not found.
    ColumnFamilyNotFound(String),
    /// A state transition from the first state to the second is invalid.
    InvalidStateTransition(String, String),
    /// The named state is invalid.
    InvalidState(String),
    /// The given URI is invalid.
    InvalidURI(String),
    /// The given peer is invalid.
    InvalidPeer(String),
    /// The scheduler client was not found.
    SchedulerClientNotFound,
    /// A response was unexpected.
    UnexpectedResponse,
    /// A piece's digest did not match.
    PieceDigestMismatch,
    /// The maximum schedule count was exceeded.
    MaxScheduleCountExceeded(u32),
    /// The content length is invalid.
    InvalidContentLength,
    /// A parameter is invalid.
    InvalidParameter,
    /// A text-encoding failure, carrying its rendered cause.
    Utf8(String),
    /// An unclassified failure, carrying a free-form message.
    Unknown(String),
    /// The code path is intentionally unsupported.
    Unimplemented,
    /// An HTTP range could not be parsed because it was empty.
    EmptyHTTPRangeError,
    /// A transport status failure: an RPC status code and its message.
    TonicStatus(u32, String),
    /// An HTTP-layer failure.
    HTTP(HTTPError),
    /// A failure from outside the taxonomy, wrapped in the envelope.
    ExternalError(ExternalError),
}

/// The kind's rendered message. Kinds that wrap another failure render as
/// that failure's own message; the others interpolate their fields into a
/// fixed template.
pub open spec fn dferror_message(e: DFError) -> Seq<char> {
    match e {
        DFError::IO(s) => s@,
        DFError::MpscSend(s) => "mpsc send: "@ + s@,
        DFError::SendTimeout => "send timeout"@,
        DFError::HashRing(s) => "hashring "@ + s@ + " is failed"@,
        DFError::HostNotFound(s) => "host "@ + s@ + " not found"@,
        DFError::TaskNotFound(s) => "task "@ + s@ + " not found"@,
        DFError::PieceNotFound(s) => "piece "@ + s@ + " not found"@,
        DFError::PieceStateIsFailed(s) => "piece "@ + s@ + " state is failed"@,
        DFError::WaitForPieceFinishedTimeout(s) => "wait for piece "@ + s@ + " finished timeout"@,
        DFError::AvailableManagerNotFound => "available manager not found"@,
        DFError::AvailableSchedulersNotFound => "available schedulers not found"@,
        DFError::DownloadFromRemotePeerFailed(d) => "download piece "@ + dec_of(
            d.piece_number as nat,
        ) + " from remote peer "@ + d.parent_id@ + " failed"@,
        DFError::ColumnFamilyNotFound(s) => "column family "@ + s@ + " not found"@,
        DFError::InvalidStateTransition(f, t) => "can not transit from "@ + f@ + " to "@ + t@,
        DFError::InvalidState(s) => "invalid state "@ + s@,
        DFError::InvalidURI(s) => "invalid uri "@ + s@,
        DFError::InvalidPeer(s) => "invalid peer "@ + s@,
        DFError::SchedulerClientNotFound => "scheduler client not found"@,
        DFError::UnexpectedResponse => "unexpected response"@,
        DFError::PieceDigestMismatch => "piece digest mismatch"@,
        DFError::MaxScheduleCountExceeded(n) => "max schedule count "@ + dec_of(n as nat)
            + " exceeded"@,
        DFError::InvalidContentLength => "invalid content length"@,
        DFError::InvalidParameter => "invalid parameter"@,
        DFError::Utf8(s) => s@,
        DFError::Unknown(s) => "unknown "@ + s@,
        DFError::Unimplemented => "unimplemented"@,
        DFError::EmptyHTTPRangeError => "RangeUnsatisfiable: Failed to parse range fallback error, please file an issue"@,
        DFError::TonicStatus(code, msg) => "status "@ + dec_of(code as nat) + ": "@ + msg@,
        DFError::HTTP(h) => "HTTP "@ + dec_of(h.status_code as nat),
        DFError::ExternalError(e) => external_error_message(e),
    }
}

impl DFError {
    /// Renders the kind's fixed message.
    pub fn message(&self) -> (r: String)
        ensures
            r@ == dferror_message(*self),
    {
        match self {
            DFError::IO(s) => s.clone(),
            DFError::MpscSend(s) => String::from_str("mpsc send: ").concat(s.as_str()),
            DFError::SendTimeout => String::from_str("send timeout"),
            DFError::HashRing(s) => String::from_str("hashring ").concat(s.as_str()).concat(
                " is failed",
            ),
            DFError::HostNotFound(s) => String::from_str("host ").concat(s.as_str()).concat(
                " not found",
            ),
            DFError::TaskNotFound(s) => String::from_str("task ").concat(s.as_str()).concat(
                " not found",
            ),
            DFError::PieceNotFound(s) => String::from_str("piece ").concat(s.as_str()).concat(
                " not found",
            ),
            DFError::PieceStateIsFailed(s) => String::from_str("piece ").concat(s.as_str()).concat(
                " state is failed",
            ),
            DFError::WaitForPieceFinishedTimeout(s) => String::from_str("wait for piece ").concat(
                s.as_str(),
            ).concat(" finished timeout"),
            DFError::AvailableManagerNotFound => String::from_str("available manager not found"),
            DFError::AvailableSchedulersNotFound => String::from_str(
                "available schedulers not found",
            ),
            DFError::DownloadFromRemotePeerFailed(d) => String::from_str("download piece ").concat(
                u64_to_dec(d.piece_number as u64).as_str(),
            ).concat(" from remote peer ").concat(d.parent_id.as_str()).concat(" failed"),
            DFError::ColumnFamilyNotFound(s) => String::from_str("column family ").concat(
                s.as_str(),
            ).concat(" not found"),
            DFError::InvalidStateTransition(f, t) => String::from_str("can not transit from ")
                .concat(f.as_str()).concat(" to ").concat(t.as_str()),
            DFError::InvalidState(s) => String::from_str("invalid state ").concat(s.as_str()),
            DFError::InvalidURI(s) => String::from_str("invalid uri ").concat(s.as_str()),
            DFError::InvalidPeer(s) => String::from_str("invalid peer ").concat(s.as_str()),
            DFError::SchedulerClientNotFound => String::from_str("scheduler client not found"),
            DFError::UnexpectedResponse => String::from_str("unexpected response"),
            DFError::PieceDigestMismatch => String::from_str("piece digest mismatch"),
            DFError::MaxScheduleCountExceeded(n) => String::from_str("max schedule count ").concat(
                u64_to_dec(*n as u64).as_str(),
            ).concat(" exceeded"),
            DFError::InvalidContentLength => String::from_str("invalid content length"),
            DFError::InvalidParameter => String::from_str("invalid parameter"),
            DFError::Utf8(s) => s.clone(),
            DFError::Unknown(s) => String::from_str("unknown ").concat(s.as_str()),
            DFError::Unimplemented => String::from_str("unimplemented"),
            DFError::EmptyHTTPRangeError => String::from_str(
                "RangeUnsatisfiable: Failed to parse range fallback error, please file an issue",
            ),
            DFError::TonicStatus(code, msg) => String::from_str("status ").concat(
                u64_to_dec(*code as u64).as_str(),
            ).concat(": ").concat(msg.as_str()),
            DFError::HTTP(h) => String::from_str("HTTP ").concat(
                u64_to_dec(h.status_code as u64).as_str(),
            ),
            DFError::ExternalError(e) => e.message(),
        }
    }

    /// Classifies an envelope-wrapped outside failure.
    pub fn from_external(err: ExternalError) -> (r: DFError)
        ensures
            r == DFError::ExternalError(err),
    {
        DFError::ExternalError(err)
    }

    /// Classifies a native I/O failure by its rendered cause.
    pub fn from_io_error(message: String) -> (r: DFError)
        ensures
            r == DFError::IO(message),
    {
        DFError::IO(message)
    }

    /// Classifies a text-encoding failure by its rendered cause.
    pub fn from_utf8_error(message: String) -> (r: DFError)
        ensures
            r == DFError::Utf8(message),
    {
        DFError::Utf8(message)
    }

    /// Classifies an internal-channel send failure by its rendered cause.
    pub fn from_send_error(message: String) -> (r: DFError)
        ensures
            r == DFError::MpscSend(message),
    {
        DFError::MpscSend(message)
    }

    /// Classifies a timed send that gave up. A closed channel and an actual
    /// wait timeout are both reported as the send-timeout kind.
    pub fn from_send_timeout_error(condition: SendTimeoutCondition) -> (r: DFError)
        ensures
            r == DFError::SendTimeout,
    {
        match condition {
            SendTimeoutCondition::Timeout => DFError::SendTimeout,
            SendTimeoutCondition::Closed => DFError::SendTimeout,
        }
    }

    /// Classifies a transport status failure by its code and message.
    pub fn from_tonic_status(code: u32, message: String) -> (r: DFError)
        ensures
            r == DFError::TonicStatus(code, message),
    {
        DFError::TonicStatus(code, message)
    }

    /// Classifies an HTTP-layer failure.
    pub fn from_http_error(err: HTTPError) -> (r: DFError)
        ensures
            r == DFError::HTTP(err),
    {
        DFError::HTTP(err)
    }
}

} // verus!
