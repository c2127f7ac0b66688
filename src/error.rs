//! Status codes and error values exchanged with drivers.
use vstd::prelude::*;

verus! {

/// Outcome of every driver operation. `Success` is the only success code; every
/// other code comes with an error value.
#[derive(Debug, Clone, Copy, PartialEq, Eq, Structural)]
pub enum AdbcStatusCode {
    Success,
    Unknown,
    NotImplemented,
    NotFound,
    AlreadyExists,
    InvalidArgument,
    InvalidState,
    InvalidData,
    Integrity,
    Internal,
    IO,
    Cancelled,
    Timeout,
    Unauthenticated,
    Unauthorized,
}

/// The numeric value of a status code on the wire.
pub open spec fn status_code_value(status: AdbcStatusCode) -> u8 {
    match status {
        AdbcStatusCode::Success => 0,
        AdbcStatusCode::Unknown => 1,
        AdbcStatusCode::NotImplemented => 2,
        AdbcStatusCode::NotFound => 3,
        AdbcStatusCode::AlreadyExists => 4,
        AdbcStatusCode::InvalidArgument => 5,
        AdbcStatusCode::InvalidState => 6,
        AdbcStatusCode::InvalidData => 7,
        AdbcStatusCode::Integrity => 8,
        AdbcStatusCode::Internal => 9,
        AdbcStatusCode::IO => 10,
        AdbcStatusCode::Cancelled => 11,
        AdbcStatusCode::Timeout => 12,
        AdbcStatusCode::Unauthenticated => 13,
        AdbcStatusCode::Unauthorized => 14,
    }
}

impl AdbcStatusCode {
    /// The numeric value of this code as drivers exchange it.
    pub fn code(&self) -> (r: u8)
        ensures
            r == status_code_value(*self),
    {
        match self {
            AdbcStatusCode::Success => 0,
            AdbcStatusCode::Unknown => 1,
            AdbcStatusCode::NotImplemented => 2,
            AdbcStatusCode::NotFound => 3,
            AdbcStatusCode::AlreadyExists => 4,
            AdbcStatusCode::InvalidArgument => 5,
            AdbcStatusCode::InvalidState => 6,
            AdbcStatusCode::InvalidData => 7,
            AdbcStatusCode::Integrity => 8,
            AdbcStatusCode::Internal => 9,
            AdbcStatusCode::IO => 10,
            AdbcStatusCode::Cancelled => 11,
            AdbcStatusCode::Timeout => 12,
            AdbcStatusCode::Unauthenticated => 13,
            AdbcStatusCode::Unauthorized => 14,
        }
    }
}

/// The error slot a driver fills in when an operation fails.
#[derive(Debug)]
pub struct FFI_AdbcError {
    /// Human-readable description; empty when the driver gave none.
    pub message: String,
    /// Vendor-specific code; zero when the driver gave none.
    pub vendor_code: i32,
    /// SQLSTATE code; all zero bytes when the driver gave none.
    pub sqlstate: [u8; 5],
}

impl FFI_AdbcError {
    /// No error reported yet.
    pub open spec fn is_blank(&self) -> bool {
        &&& self.message@.len() == 0
        &&& self.vendor_code == 0
        &&& self.sqlstate@ == seq![0u8, 0u8, 0u8, 0u8, 0u8]
    }

    /// A fresh error slot, handed to a driver before each call.
    pub fn empty() -> (r: Self)
        ensures
            r.is_blank(),
    {
        let r = FFI_AdbcError { message: String::new(), vendor_code: 0, sqlstate: [0u8, 0u8, 0u8, 0u8, 0u8] };
        assert(r.sqlstate@ =~= seq![0u8, 0u8, 0u8, 0u8, 0u8]);
        r
    }
}

/// A driver refused to release one of its resources. The resource is then in
/// an unknown state: this is a lifecycle fault, and the process must stop
/// rather than carry on.
#[derive(Debug)]
pub struct ReleaseFailure {
    /// The non-success status the release reported.
    pub status: AdbcStatusCode,
    /// What the driver wrote into the error slot.
    pub error: FFI_AdbcError,
}

/// What a teardown returns once the release routine reported `status` and
/// wrote `error`: `Ok` on success, otherwise a `ReleaseFailure` carrying both.
pub fn release_outcome(status: AdbcStatusCode, error: FFI_AdbcError) -> (r: Result<(), ReleaseFailure>)
    ensures
        (r is Ok) == (status == AdbcStatusCode::Success),
        r matches Err(f) ==> f.status == status && f.error == error,
{
    if status == AdbcStatusCode::Success {
        Ok(())
    } else {
        Err(ReleaseFailure { status, error })
    }
}

/// An error produced by a capability implementation: a status code and a
/// message.
pub trait AdbcError {
    /// The status code this error carries.
    spec fn status(&self) -> AdbcStatusCode;

    /// Human-readable description.
    fn message(&self) -> &str;

    /// The status code this error carries.
    fn status_code(&self) -> (r: AdbcStatusCode)
        ensures
            r == self.status(),
    ;
}

impl AdbcError for ReleaseFailure {
    open spec fn status(&self) -> AdbcStatusCode {
        self.status
    }

    fn message(&self) -> &str {
        self.error.message.as_str()
    }

    fn status_code(&self) -> (r: AdbcStatusCode) {
        self.status
    }
}

/// `r` failed, with an error whose status is `status`.
pub open spec fn fails_with<T, E: AdbcError>(r: Result<T, E>, status: AdbcStatusCode) -> bool {
    match r {
        Ok(_) => false,
        Err(e) => e.status() == status,
    }
}

} // verus!
