//! What can go wrong between a tray host and its X server.

use vstd::prelude::*;
use x11rb::errors::{ConnectError, ConnectionError, ReplyError, ReplyOrIdError};

verus! {

/// `ConnectError` of x11rb: why no connection could be made.
#[verifier::external_type_specification]
#[verifier::external_body]
pub struct ExConnectError(ConnectError);

/// `ConnectionError` of x11rb: why a request could not be sent.
#[verifier::external_type_specification]
#[verifier::external_body]
pub struct ExConnectionError(ConnectionError);

/// `ReplyError` of x11rb: why a request was not answered.
#[verifier::external_type_specification]
#[verifier::external_body]
pub struct ExReplyError(ReplyError);

/// `ReplyOrIdError` of x11rb: why no resource id could be had.
#[verifier::external_type_specification]
#[verifier::external_body]
pub struct ExReplyOrIdError(ReplyOrIdError);

/// Errors the tray host can produce.
#[derive(Debug)]
pub enum Error {
    /// The X server could not be reached.
    Connect(ConnectError),
    /// A request could not be sent.
    Connection(ConnectionError),
    /// A request was sent, and was answered by an error.
    Reply(ReplyError),
    /// No resource id could be allocated.
    ReplyOrId(ReplyOrIdError),
    /// Another system tray already owns the selection.
    AlreadyOwned(String),
    /// Ownership of the selection was not granted.
    AcquireFailed(String),
}

impl From<ConnectError> for Error {
    fn from(err: ConnectError) -> (error: Error) {
        Error::Connect(err)
    }
}

impl vstd::std_specs::convert::FromSpecImpl<ConnectError> for Error {
    open spec fn obeys_from_spec() -> bool {
        true
    }

    open spec fn from_spec(err: ConnectError) -> Error {
        Error::Connect(err)
    }
}

impl From<ConnectionError> for Error {
    fn from(err: ConnectionError) -> (error: Error) {
        Error::Connection(err)
    }
}

impl vstd::std_specs::convert::FromSpecImpl<ConnectionError> for Error {
    open spec fn obeys_from_spec() -> bool {
        true
    }

    open spec fn from_spec(err: ConnectionError) -> Error {
        Error::Connection(err)
    }
}

impl From<ReplyError> for Error {
    fn from(err: ReplyError) -> (error: Error) {
        Error::Reply(err)
    }
}

impl vstd::std_specs::convert::FromSpecImpl<ReplyError> for Error {
    open spec fn obeys_from_spec() -> bool {
        true
    }

    open spec fn from_spec(err: ReplyError) -> Error {
        Error::Reply(err)
    }
}

impl From<ReplyOrIdError> for Error {
    fn from(err: ReplyOrIdError) -> (error: Error) {
        Error::ReplyOrId(err)
    }
}

impl vstd::std_specs::convert::FromSpecImpl<ReplyOrIdError> for Error {
    open spec fn obeys_from_spec() -> bool {
        true
    }

    open spec fn from_spec(err: ReplyOrIdError) -> Error {
        Error::ReplyOrId(err)
    }
}

} // verus!
