//! Error model for the resiliency core.
//!
//! Transport failures carry an explicit protocol condition or an
//! HTTP-equivalent status code as structured data, so deciding whether a
//! failure is worth retrying is a structural match rather than a runtime
//! type inspection. A cause may still arrive boxed once or twice;
//! classification unwraps any depth of boxing before inspecting it.

use vstd::prelude::*;

verus! {

/// A described protocol-level error condition reported by the transport.
#[derive(Clone, Copy, Debug, PartialEq, Eq, Structural)]
pub enum AmqpErrorCondition {
    /// The peer ran out of a resource limit; worth retrying.
    ResourceLimitExceeded,
    /// The service reported itself busy; worth retrying.
    ServerBusy,
    /// The operation timed out at the peer; worth retrying.
    OperationTimeout,
    /// The connection itself was forcibly closed by the peer.
    ConnectionForced,
    /// A framing fault killed the connection.
    FramingError,
    /// The link was taken over by another client.
    LinkStolen,
    /// The peer is in a state in which the request is illegal.
    IllegalState,
    /// The addressed node does not exist.
    NotFound,
    /// The operation is not allowed for this client.
    NotAllowed,
    /// Authentication or authorization failed.
    UnauthorizedAccess,
    /// The peer hit an internal fault it could not attribute.
    InternalError,
    /// A payload could not be decoded.
    DecodeError,
    /// An optimistic-concurrency precondition failed.
    PreconditionFailed,
    /// The addressed resource was deleted.
    ResourceDeleted,
}

/// The failure reported by one transport-level operation.
#[derive(Debug)]
pub enum AmqpErrorKind {
    /// A management-style response that carries an HTTP-equivalent status
    /// code.
    ManagementStatusCode { status: u16, description: Option<String> },
    /// A described protocol error with an explicit condition.
    Described { condition: AmqpErrorCondition, description: Option<String> },
    /// An ambiguous network timeout with no further structure.
    TransportTimeout { description: Option<String> },
    /// The transport observed the connection drop underneath it.
    ConnectionDropped { description: Option<String> },
}

/// A transport error, the richly-typed failure of one protocol operation.
#[derive(Debug)]
pub struct AmqpError {
    pub kind: AmqpErrorKind,
}

impl AmqpError {
    /// A management-style error carrying an HTTP-equivalent status code.
    pub fn new_management_error(status: u16, description: Option<String>) -> (r: Self)
        ensures
            r.kind == (AmqpErrorKind::ManagementStatusCode { status, description }),
    {
        AmqpError { kind: AmqpErrorKind::ManagementStatusCode { status, description } }
    }

    /// A described protocol error with an explicit condition.
    pub fn new_described_error(condition: AmqpErrorCondition, description: Option<String>)
        -> (r: Self)
        ensures
            r.kind == (AmqpErrorKind::Described { condition, description }),
    {
        AmqpError { kind: AmqpErrorKind::Described { condition, description } }
    }
}

/// The broad category of a failure surfaced to callers.
#[derive(Clone, Copy, Debug, PartialEq, Eq, Structural)]
pub enum ErrorKind {
    /// A transport-protocol failure; the only kind ever retried.
    Amqp,
    /// A transient network-level failure below the protocol.
    Io,
    /// Bad input to a call; surfaced immediately, never retried.
    Validation,
    /// A value could not be converted to the requested shape.
    DataConversion,
    /// A credential could not be acquired or was rejected.
    Credential,
    /// The caller asked for the operation to stop.
    Cancelled,
    /// The operation is not supported on this wrapper.
    UnsupportedOperation,
    /// Anything else.
    Other,
}

/// The cause attached to an [`Error`], possibly boxed once or twice by the
/// code that handed it over.
#[derive(Debug)]
pub enum ErrorCause {
    /// A transport error.
    Amqp(AmqpError),
    /// A cause boxed by an intermediate layer.
    Boxed(Box<ErrorCause>),
    /// A plain descriptive message.
    Message(String),
}

/// An error surfaced by this library: a kind plus an optional cause.
#[derive(Debug)]
pub struct Error {
    pub kind: ErrorKind,
    pub cause: Option<ErrorCause>,
}

/// The transport error inside a cause, unwrapped through any boxing.
pub open spec fn spec_amqp_cause(c: ErrorCause) -> Option<AmqpError>
    decreases c,
{
    match c {
        ErrorCause::Amqp(e) => Some(e),
        ErrorCause::Boxed(inner) => spec_amqp_cause(*inner),
        ErrorCause::Message(_) => None,
    }
}

/// The plain message inside a cause, unwrapped through any boxing.
pub open spec fn spec_message_cause(c: ErrorCause) -> Option<Seq<char>>
    decreases c,
{
    match c {
        ErrorCause::Amqp(_) => None,
        ErrorCause::Boxed(inner) => spec_message_cause(*inner),
        ErrorCause::Message(m) => Some(m@),
    }
}

impl Error {
    /// An error with an explicit cause.
    pub fn new(kind: ErrorKind, cause: ErrorCause) -> (r: Self)
        ensures
            r.kind == kind,
            r.cause == Some(cause),
    {
        Error { kind, cause: Some(cause) }
    }

    /// An error that carries only a descriptive message.
    pub fn message(kind: ErrorKind, msg: &str) -> (r: Self)
        ensures
            r.kind == kind,
            r.cause matches Some(c) && spec_message_cause(c) == Some(msg@),
    {
        Error { kind, cause: Some(ErrorCause::Message(msg.to_owned())) }
    }

    /// An error with no extractable cause.
    pub fn bare(kind: ErrorKind) -> (r: Self)
        ensures
            r.kind == kind,
            r.cause is None,
    {
        Error { kind, cause: None }
    }

    /// The category of this error.
    pub fn kind(&self) -> (r: ErrorKind)
        ensures
            r == self.kind,
    {
        self.kind
    }

    /// The message of this error, if its cause is a plain message.
    pub open spec fn spec_message(self) -> Option<Seq<char>> {
        match self.cause {
            Some(c) => spec_message_cause(c),
            None => None,
        }
    }
}

impl From<AmqpError> for Error {
    /// A transport error surfaces with the transport-protocol kind.
    fn from(e: AmqpError) -> (r: Error) {
        Error { kind: ErrorKind::Amqp, cause: Some(ErrorCause::Amqp(e)) }
    }
}

impl vstd::std_specs::convert::FromSpecImpl<AmqpError> for Error {
    open spec fn obeys_from_spec() -> bool {
        true
    }

    open spec fn from_spec(e: AmqpError) -> Error {
        Error { kind: ErrorKind::Amqp, cause: Some(ErrorCause::Amqp(e)) }
    }
}

/// A field-for-field copy of an optional string.
fn clone_opt_string(o: &Option<String>) -> (r: Option<String>)
    ensures
        r == *o,
{
    match o {
        Some(s) => Some(s.clone()),
        None => None,
    }
}

impl AmqpError {
    /// An equal copy of this transport error.
    pub fn duplicate(&self) -> (r: AmqpError)
        ensures
            r == *self,
    {
        AmqpError {
            kind: match &self.kind {
                AmqpErrorKind::ManagementStatusCode { status, description } => {
                    AmqpErrorKind::ManagementStatusCode {
                        status: *status,
                        description: clone_opt_string(description),
                    }
                },
                AmqpErrorKind::Described { condition, description } => AmqpErrorKind::Described {
                    condition: *condition,
                    description: clone_opt_string(description),
                },
                AmqpErrorKind::TransportTimeout { description } => {
                    AmqpErrorKind::TransportTimeout { description: clone_opt_string(description) }
                },
                AmqpErrorKind::ConnectionDropped { description } => {
                    AmqpErrorKind::ConnectionDropped { description: clone_opt_string(description) }
                },
            },
        }
    }
}

/// An equal copy of a cause, through any boxing.
fn duplicate_cause(c: &ErrorCause) -> (r: ErrorCause)
    ensures
        r == *c,
    decreases *c,
{
    match c {
        ErrorCause::Amqp(e) => ErrorCause::Amqp(e.duplicate()),
        ErrorCause::Boxed(inner) => ErrorCause::Boxed(Box::new(duplicate_cause(inner))),
        ErrorCause::Message(m) => ErrorCause::Message(m.clone()),
    }
}

impl Error {
    /// An equal copy of this error, so one failure can be surfaced
    /// identically to several waiters.
    pub fn duplicate(&self) -> (r: Error)
        ensures
            r == *self,
    {
        Error {
            kind: self.kind,
            cause: match &self.cause {
                Some(c) => Some(duplicate_cause(c)),
                None => None,
            },
        }
    }
}

/// How a failure should be handled by the retry machinery.
#[derive(Clone, Copy, Debug, PartialEq, Eq, Structural)]
pub enum ErrorClassification {
    /// Never retry.
    Fatal,
    /// Retry after a backoff delay.
    Retryable,
    /// Retry after forcing the connection and its sessions to be recreated.
    RequiresReconnect,
}

/// Whether an HTTP-equivalent status code embedded in a transport error is
/// worth retrying: too-many-requests, request-timeout, and the transient
/// server-side failures. Success-range, redirect-range, and all other
/// client-error codes are not.
pub open spec fn spec_status_code_retryable(status: u16) -> bool {
    status == 408 || status == 429 || status == 500 || status == 502 || status == 503
        || status == 504
}

/// Whether `status` names a transient failure worth retrying.
pub fn status_code_retryable(status: u16) -> (r: bool)
    ensures
        r == spec_status_code_retryable(status),
{
    status == 408 || status == 429 || status == 500 || status == 502 || status == 503
        || status == 504
}

/// How a described protocol condition is handled: conditions that say the
/// connection or link itself is dead force a reconnect; resource-pressure
/// and timeout conditions are retried in place; everything else signals a
/// client or application fault and is fatal.
pub open spec fn spec_classify_condition(condition: AmqpErrorCondition) -> ErrorClassification {
    match condition {
        AmqpErrorCondition::ResourceLimitExceeded => ErrorClassification::Retryable,
        AmqpErrorCondition::ServerBusy => ErrorClassification::Retryable,
        AmqpErrorCondition::OperationTimeout => ErrorClassification::Retryable,
        AmqpErrorCondition::ConnectionForced => ErrorClassification::RequiresReconnect,
        AmqpErrorCondition::FramingError => ErrorClassification::RequiresReconnect,
        AmqpErrorCondition::LinkStolen => ErrorClassification::RequiresReconnect,
        _ => ErrorClassification::Fatal,
    }
}

/// Classifies a described protocol condition.
pub fn classify_condition(condition: AmqpErrorCondition) -> (r: ErrorClassification)
    ensures
        r == spec_classify_condition(condition),
{
    match condition {
        AmqpErrorCondition::ResourceLimitExceeded => ErrorClassification::Retryable,
        AmqpErrorCondition::ServerBusy => ErrorClassification::Retryable,
        AmqpErrorCondition::OperationTimeout => ErrorClassification::Retryable,
        AmqpErrorCondition::ConnectionForced => ErrorClassification::RequiresReconnect,
        AmqpErrorCondition::FramingError => ErrorClassification::RequiresReconnect,
        AmqpErrorCondition::LinkStolen => ErrorClassification::RequiresReconnect,
        AmqpErrorCondition::IllegalState => ErrorClassification::Fatal,
        AmqpErrorCondition::NotFound => ErrorClassification::Fatal,
        AmqpErrorCondition::NotAllowed => ErrorClassification::Fatal,
        AmqpErrorCondition::UnauthorizedAccess => ErrorClassification::Fatal,
        AmqpErrorCondition::InternalError => ErrorClassification::Fatal,
        AmqpErrorCondition::DecodeError => ErrorClassification::Fatal,
        AmqpErrorCondition::PreconditionFailed => ErrorClassification::Fatal,
        AmqpErrorCondition::ResourceDeleted => ErrorClassification::Fatal,
    }
}

/// The classification of one transport error.
pub open spec fn spec_classify_amqp_error(e: AmqpError) -> ErrorClassification {
    match e.kind {
        AmqpErrorKind::ManagementStatusCode { status, .. } => if spec_status_code_retryable(
            status,
        ) {
            ErrorClassification::Retryable
        } else {
            ErrorClassification::Fatal
        },
        AmqpErrorKind::Described { condition, .. } => spec_classify_condition(condition),
        AmqpErrorKind::TransportTimeout { .. } => ErrorClassification::Retryable,
        AmqpErrorKind::ConnectionDropped { .. } => ErrorClassification::RequiresReconnect,
    }
}

/// Classifies one transport error.
pub fn classify_amqp_error(e: &AmqpError) -> (r: ErrorClassification)
    ensures
        r == spec_classify_amqp_error(*e),
{
    match &e.kind {
        AmqpErrorKind::ManagementStatusCode { status, .. } => {
            if status_code_retryable(*status) {
                ErrorClassification::Retryable
            } else {
                ErrorClassification::Fatal
            }
        },
        AmqpErrorKind::Described { condition, .. } => classify_condition(*condition),
        AmqpErrorKind::TransportTimeout { .. } => ErrorClassification::Retryable,
        AmqpErrorKind::ConnectionDropped { .. } => ErrorClassification::RequiresReconnect,
    }
}

/// Whether a transport error is worth retrying at all (with or without a
/// forced reconnect).
pub open spec fn spec_should_retry_amqp_error(e: AmqpError) -> bool {
    spec_classify_amqp_error(e) != ErrorClassification::Fatal
}

/// Whether a transport error is worth retrying at all.
pub fn should_retry_amqp_error(e: &AmqpError) -> (r: bool)
    ensures
        r == spec_should_retry_amqp_error(*e),
{
    let c = classify_amqp_error(e);
    !matches!(c, ErrorClassification::Fatal)
}

/// The classification of an error surfaced by this library: only
/// transport-protocol errors whose cause unwraps (through any boxing) to a
/// transport error are ever retried; an error with no extractable cause
/// fails closed.
pub open spec fn spec_classify_error(e: Error) -> ErrorClassification {
    if e.kind == ErrorKind::Amqp {
        match e.cause {
            Some(c) => match spec_amqp_cause(c) {
                Some(amqp) => spec_classify_amqp_error(amqp),
                None => ErrorClassification::Fatal,
            },
            None => ErrorClassification::Fatal,
        }
    } else {
        ErrorClassification::Fatal
    }
}

/// The transport error inside a cause, unwrapped through any boxing.
fn amqp_cause(c: &ErrorCause) -> (r: Option<&AmqpError>)
    ensures
        match r {
            Some(e) => spec_amqp_cause(*c) == Some(*e),
            None => spec_amqp_cause(*c) is None,
        },
    decreases *c,
{
    match c {
        ErrorCause::Amqp(e) => Some(e),
        ErrorCause::Boxed(inner) => amqp_cause(inner),
        ErrorCause::Message(_) => None,
    }
}

/// Classifies an error surfaced by this library.
pub fn classify_error(e: &Error) -> (r: ErrorClassification)
    ensures
        r == spec_classify_error(*e),
{
    if !matches!(e.kind(), ErrorKind::Amqp) {
        return ErrorClassification::Fatal;
    }
    match &e.cause {
        Some(c) => match amqp_cause(c) {
            Some(amqp) => classify_amqp_error(amqp),
            None => ErrorClassification::Fatal,
        },
        None => ErrorClassification::Fatal,
    }
}

} // verus!
