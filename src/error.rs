//! Error kinds of the service and how each is reported to a caller.
use vstd::prelude::*;

verus! {

/// Error kinds. Text fields carry context for logs; what a caller of the
/// registration API sees is `public_message`, which never echoes a
/// platform's own error body.
#[derive(Clone, Debug, PartialEq, Eq)]
pub enum Error {
    /// The request to the platform could not be sent.
    Awc(String),
    /// The platform answered with a non-success status; its message is kept.
    Twitch(u16, String),
    /// The platform rejected the credentials that were used (status kept).
    Auth(u16),
    /// An invariant did not hold, or the platform state was inconsistent.
    InternalServer(String),
    /// The lock around the token cache could not be taken.
    Mutex,
    /// The database failed.
    SQLx(String),
    /// The inbound request or payload was malformed.
    BadRequest(String),
    /// The registration asked for exists already.
    Conflict,
}

pub type Result<T> = core::result::Result<T, Error>;

/// HTTP status a caller of the registration API receives for an error.
pub open spec fn status_of(e: Error) -> u16 {
    match e {
        Error::BadRequest(_) => 400,
        Error::Conflict => 409,
        Error::Awc(_) | Error::Twitch(_, _) | Error::Auth(_) => 502,
        Error::InternalServer(_) | Error::Mutex | Error::SQLx(_) => 500,
    }
}

/// Message a caller of the registration API receives for an error.
pub open spec fn public_message(e: Error) -> Seq<char> {
    match e {
        Error::Awc(_) => "Could not reach the Twitch API"@,
        Error::Twitch(_, _) => "The Twitch API returned an error"@,
        Error::Auth(_) => "The Twitch API rejected the authorization"@,
        Error::InternalServer(m) => m@,
        Error::Mutex => "Could not lock mutex"@,
        Error::SQLx(_) => "An error occurred while executing a database query"@,
        Error::BadRequest(m) => m@,
        Error::Conflict => "Notification already exists"@,
    }
}

impl Error {
    pub fn status_code(&self) -> (r: u16)
        ensures
            r == status_of(*self),
    {
        match self {
            Error::BadRequest(_) => 400,
            Error::Conflict => 409,
            Error::Awc(_) | Error::Twitch(_, _) | Error::Auth(_) => 502,
            Error::InternalServer(_) | Error::Mutex | Error::SQLx(_) => 500,
        }
    }

    pub fn message(&self) -> (r: String)
        ensures
            r@ == public_message(*self),
    {
        match self {
            Error::Awc(_) => String::from_str("Could not reach the Twitch API"),
            Error::Twitch(_, _) => String::from_str("The Twitch API returned an error"),
            Error::Auth(_) => String::from_str("The Twitch API rejected the authorization"),
            Error::InternalServer(m) => m.clone(),
            Error::Mutex => String::from_str("Could not lock mutex"),
            Error::SQLx(_) => String::from_str(
                "An error occurred while executing a database query",
            ),
            Error::BadRequest(m) => m.clone(),
            Error::Conflict => String::from_str("Notification already exists"),
        }
    }
}

} // verus!
