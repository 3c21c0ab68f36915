use vstd::prelude::*;

verus! {

/// The errors a vault session can surface.
#[derive(Debug)]
pub enum Error {
    /// A URL (the configured base URL or a joined path) could not be parsed.
    ParseError(String),
    /// The HTTP request to vault itself failed in the transport.
    ReqwestError(String),
    /// An I/O operation outside the request path failed, such as loading a
    /// JWT token from a local file.
    IOError(String),
    /// Vault rejected the request as malformed or missing data (HTTP 400).
    InvalidRequest,
    /// The vault instance is sealed and handles no requests (HTTP 503).
    IsSealed,
    /// The vault endpoint or path does not exist (HTTP 404).
    NotFound,
    /// The session or credentials were rejected (HTTP 403).
    Unauthorized,
    /// The session has expired and the configured policy never re-authenticates.
    SessionExpired,
    /// Any other non-success response.
    Other,
}

impl Error {
    /// The error a non-success status code maps to: the four codes vault
    /// distinguishes get their own kind, every other code is `Other`.
    pub open spec fn spec_from_status(code: u16) -> Error {
        if code == 400 {
            Error::InvalidRequest
        } else if code == 403 {
            Error::Unauthorized
        } else if code == 404 {
            Error::NotFound
        } else if code == 503 {
            Error::IsSealed
        } else {
            Error::Other
        }
    }

    /// The description `describe` renders for each error: the fixed message
    /// of its kind, with the carried cause appended where there is one.
    pub open spec fn spec_describe(&self) -> Seq<char> {
        match *self {
            Error::ParseError(ref cause) => "Parse Error: "@ + cause@,
            Error::ReqwestError(ref cause) => "Reqwest Error: "@ + cause@,
            Error::IOError(ref cause) => "IO Error: "@ + cause@,
            Error::InvalidRequest => "Invalid Request: Invalid or Missing data"@,
            Error::IsSealed => "The Vault instance is still sealed and can't be used at the moment"@,
            Error::NotFound => "Not Found"@,
            Error::Unauthorized => "Unauthorized"@,
            Error::SessionExpired => "Session has expired, no auto login"@,
            Error::Other => "Unknown error"@,
        }
    }

    /// Creates the corresponding error for a non-success status code
    /// returned by the vault API.
    pub fn from_status_code(code: u16) -> (r: Error)
        ensures
            r == Error::spec_from_status(code),
    {
        match code {
            400 => Error::InvalidRequest,
            403 => Error::Unauthorized,
            404 => Error::NotFound,
            503 => Error::IsSealed,
            _ => Error::Other,
        }
    }

    /// A short description of the error, usable in place of formatting it.
    pub fn describe(&self) -> (r: String)
        ensures
            r@ == self.spec_describe(),
    {
        match self {
            Error::ParseError(cause) => String::from_str("Parse Error: ").concat(cause.as_str()),
            Error::ReqwestError(cause) => String::from_str("Reqwest Error: ").concat(
                cause.as_str(),
            ),
            Error::IOError(cause) => String::from_str("IO Error: ").concat(cause.as_str()),
            Error::InvalidRequest => String::from_str("Invalid Request: Invalid or Missing data"),
            Error::IsSealed => String::from_str(
                "The Vault instance is still sealed and can't be used at the moment",
            ),
            Error::NotFound => String::from_str("Not Found"),
            Error::Unauthorized => String::from_str("Unauthorized"),
            Error::SessionExpired => String::from_str("Session has expired, no auto login"),
            Error::Other => String::from_str("Unknown error"),
        }
    }
}

/// The errors the renewal side of the client can surface.
#[derive(Debug)]
pub enum RenewError {
    /// The auth backend failed while renewing the current session.
    AuthError(Error),
    /// The renewal loop was started, but the configured policy does not
    /// enable renewal.
    NotEnabled,
    /// The current session cannot be renewed.
    NotRenewable,
}

impl RenewError {
    /// A short description of the error, usable in place of formatting it.
    pub fn describe(&self) -> (r: String)
        ensures
            self matches RenewError::AuthError(cause) ==> r@ == "Error returned by Auth-Backend: "@
                + cause.spec_describe(),
            self is NotEnabled ==> r@ == "The Renew Policy is not enabled"@,
            self is NotRenewable ==> r@ == "The current session can not be renewed"@,
    {
        match self {
            RenewError::AuthError(cause) => String::from_str(
                "Error returned by Auth-Backend: ",
            ).concat(cause.describe().as_str()),
            RenewError::NotEnabled => String::from_str("The Renew Policy is not enabled"),
            RenewError::NotRenewable => String::from_str("The current session can not be renewed"),
        }
    }
}

} // verus!
