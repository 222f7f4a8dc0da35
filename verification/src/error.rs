//! The service's error taxonomy, and the wire shape errors are rendered in.
//!
//! Every authentication failure collapses to the single generic
//! `InvalidToken` outcome before it leaves the resolver, so a caller can
//! never tell why authentication failed.

use vstd::prelude::*;

verus! {

/// Everything this core can report to a caller.
#[derive(Clone, Copy, PartialEq, Eq, Structural, Debug)]
pub enum ServiceError {
    /// The one undifferentiated authentication failure.
    InvalidToken,
    InvalidAccountOrPassword,
    DeviceBanned,
    InvalidGrantType,
    InvalidRefreshToken,
    BadVerificationCode,
    AccountIdExists,
    ServerNotFound,
    NotIpv4,
    Database,
}

/// One rendered error entry.
pub struct Error {
    pub code: &'static str,
    pub message: &'static str,
}

/// The rendered error list a response body carries.
pub struct Errors {
    pub error: Vec<Error>,
}

impl ServiceError {
    /// The stable wire code of this error.
    pub open spec fn spec_code(self) -> Seq<char> {
        match self {
            ServiceError::InvalidToken => "0005"@,
            ServiceError::InvalidAccountOrPassword => "0106"@,
            ServiceError::DeviceBanned => "0122"@,
            ServiceError::InvalidGrantType => "0100"@,
            ServiceError::InvalidRefreshToken => "0107"@,
            ServiceError::BadVerificationCode => "0116"@,
            ServiceError::AccountIdExists => "0100"@,
            ServiceError::ServerNotFound => "1021"@,
            ServiceError::NotIpv4 => "1022"@,
            ServiceError::Database => "9999"@,
        }
    }

    /// The stable wire message of this error.
    pub open spec fn spec_message(self) -> Seq<char> {
        match self {
            ServiceError::InvalidToken => "Invalid access token"@,
            ServiceError::InvalidAccountOrPassword => "Invalid account ID or password"@,
            ServiceError::DeviceBanned => "Device has been banned by game server"@,
            ServiceError::InvalidGrantType => "Invalid grant type"@,
            ServiceError::InvalidRefreshToken => "Invalid or missing refresh token"@,
            ServiceError::BadVerificationCode => "Missing or invalid verification code"@,
            ServiceError::AccountIdExists => "Account ID already exists"@,
            ServiceError::ServerNotFound => "The requested game server was not found"@,
            ServiceError::NotIpv4 => "Server is not a valid IPv4 address"@,
            ServiceError::Database => "Internal server error"@,
        }
    }

    pub fn code(&self) -> (r: &'static str)
        ensures
            r@ == self.spec_code(),
    {
        match self {
            ServiceError::InvalidToken => "0005",
            ServiceError::InvalidAccountOrPassword => "0106",
            ServiceError::DeviceBanned => "0122",
            ServiceError::InvalidGrantType => "0100",
            ServiceError::InvalidRefreshToken => "0107",
            ServiceError::BadVerificationCode => "0116",
            ServiceError::AccountIdExists => "0100",
            ServiceError::ServerNotFound => "1021",
            ServiceError::NotIpv4 => "1022",
            ServiceError::Database => "9999",
        }
    }

    pub fn message(&self) -> (r: &'static str)
        ensures
            r@ == self.spec_message(),
    {
        match self {
            ServiceError::InvalidToken => "Invalid access token",
            ServiceError::InvalidAccountOrPassword => "Invalid account ID or password",
            ServiceError::DeviceBanned => "Device has been banned by game server",
            ServiceError::InvalidGrantType => "Invalid grant type",
            ServiceError::InvalidRefreshToken => "Invalid or missing refresh token",
            ServiceError::BadVerificationCode => "Missing or invalid verification code",
            ServiceError::AccountIdExists => "Account ID already exists",
            ServiceError::ServerNotFound => "The requested game server was not found",
            ServiceError::NotIpv4 => "Server is not a valid IPv4 address",
            ServiceError::Database => "Internal server error",
        }
    }

    /// Render as the single-entry error list the wire format carries.
    pub fn to_errors(&self) -> (r: Errors)
        ensures
            r.error@.len() == 1,
            r.error@[0].code@ == self.spec_code(),
            r.error@[0].message@ == self.spec_message(),
    {
        let mut error: Vec<Error> = Vec::new();
        error.push(Error { code: self.code(), message: self.message() });
        Errors { error }
    }
}

} // verus!
