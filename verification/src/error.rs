//! Error types, and the conversions of ESP-IDF errors into them.

use vstd::prelude::*;

verus! {

/// The generic ESP-IDF failure code.
pub const ESP_FAIL: i32 = -1;

/// The ESP-IDF code for an operation that the current state does not allow.
pub const ESP_ERR_INVALID_STATE: i32 = 0x103;

/// An ESP-IDF error: the code that the failing call returned.
#[derive(Debug, Copy, Clone, PartialEq, Eq, Structural)]
pub struct EspError {
    pub code: i32,
}

/// The Matter error codes that this crate reports.
#[derive(Debug, Copy, Clone, PartialEq, Eq, Structural)]
pub enum ErrorCode {
    AttributeNotFound,
    BtpError,
    CommandNotFound,
    ConstraintError,
    InvalidData,
    NoNetworkInterface,
    StdIoError,
}

/// A Matter error.
#[derive(Debug, Copy, Clone, PartialEq, Eq, Structural)]
pub struct Error {
    pub code: ErrorCode,
}

/// What a request to a network controller can fail with.
#[derive(Debug, Copy, Clone, PartialEq, Eq, Structural)]
pub enum NetCtlError {
    /// The network refused the credentials, or did not come up in time.
    AuthFailure,
    /// No connection attempt succeeded.
    OtherConnectionFailure,
    /// The connection is up, but got no IP configuration in time.
    IpBindFailed,
    /// Any other Matter error.
    Other(Error),
}

impl EspError {
    /// An error with a code that is known when the program is written.
    pub fn from_infallible(code: i32) -> (r: Self)
        ensures
            r.code == code,
    {
        EspError { code }
    }
}

impl From<ErrorCode> for Error {
    fn from(code: ErrorCode) -> (r: Self) {
        Error { code }
    }
}

impl vstd::std_specs::convert::FromSpecImpl<ErrorCode> for Error {
    open spec fn obeys_from_spec() -> bool {
        true
    }

    open spec fn from_spec(code: ErrorCode) -> Self {
        Error { code }
    }
}

impl From<Error> for NetCtlError {
    fn from(err: Error) -> (r: Self) {
        NetCtlError::Other(err)
    }
}

impl vstd::std_specs::convert::FromSpecImpl<Error> for NetCtlError {
    open spec fn obeys_from_spec() -> bool {
        true
    }

    open spec fn from_spec(err: Error) -> Self {
        NetCtlError::Other(err)
    }
}

/// What every ESP network error is reported as.
pub open spec fn net_error() -> Error {
    Error { code: ErrorCode::NoNetworkInterface }
}

/// What every ESP persistence error is reported as.
pub open spec fn persist_error() -> Error {
    Error { code: ErrorCode::StdIoError }
}

/// What data that breaks a constraint of the network hardware is reported as.
pub open spec fn net_constr_error() -> NetCtlError {
    NetCtlError::Other(Error { code: ErrorCode::ConstraintError })
}

/// Converts an ESP network error to a Matter error.
///
/// The code of the ESP error is not kept.
pub fn to_net_error(_err: EspError) -> (r: Error)
    ensures
        r == net_error(),
{
    Error { code: ErrorCode::NoNetworkInterface }
}

/// Converts an ESP persistence error to a Matter error.
///
/// The code of the ESP error is not kept.
pub fn to_persist_error(_err: EspError) -> (r: Error)
    ensures
        r == persist_error(),
{
    Error { code: ErrorCode::StdIoError }
}

/// Converts any error about the shape of network credentials to a constraint error.
pub fn to_net_constr_error<E>(_err: E) -> (r: NetCtlError)
    ensures
        r == net_constr_error(),
{
    NetCtlError::Other(Error { code: ErrorCode::ConstraintError })
}

/// The Matter error that stands for any failure of the BTP peripheral.
pub open spec fn btp_error() -> Error {
    Error { code: ErrorCode::BtpError }
}

/// Maps a failure of the BTP peripheral.
pub fn to_btp_error(_err: EspError) -> (r: Error)
    ensures
        r == btp_error(),
{
    Error::from(ErrorCode::BtpError)
}

/// What failures are reported as: those of the network as a missing interface, those of the storage
/// as an input or output error, those of the BTP peripheral as such, and credentials that do not fit
/// as a broken constraint. The codes of the own failures are those that ESP-IDF gives them.
pub proof fn law_failures_are_told_apart()
    ensures
        net_error().code is NoNetworkInterface,
        persist_error().code is StdIoError,
        btp_error().code is BtpError,
        net_constr_error() matches NetCtlError::Other(err) && err.code is ConstraintError,
        ESP_FAIL == -1 && ESP_ERR_INVALID_STATE == 0x103,
{
}

} // verus!
