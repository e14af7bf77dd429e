//! The error taxonomy of the broker and the HTTP status and label that each
//! error is reported with.

use vstd::prelude::*;

use crate::message::{message_of, Message};

verus! {

/// Every failure the broker reports; each carries a detail message.
#[derive(Debug, Clone, PartialEq, Eq)]
pub enum AuthError {
    MissingProperty(Message),
    MissingSession(Message),
    JsonParsingError(Message),
    MissingCookie(Message),
    TokenCreation(Message),
    MissingChallenge(Message),
    MissingParameter(Message),
    ReadSessionError(Message),
    WriteSessionError(Message),
    InvalidUrl(Message),
    UnsupportedProvider(Message),
    InternalError(Message),
    InvalidResponse(Message),
    TncSessionResponseError(Message),
    ConfigError(Message),
    DriveTokenError(Message),
    Unauthorized(Message),
    InvalidHeaderValue(Message),
    ProjectIdError(Message),
    MissingQuery(Message),
}

impl AuthError {
    /// The detail message of the error, as text.
    pub open spec fn detail(self) -> Option<Seq<char>> {
        match self {
            AuthError::MissingProperty(m) => m@,
            AuthError::MissingSession(m) => m@,
            AuthError::JsonParsingError(m) => m@,
            AuthError::MissingCookie(m) => m@,
            AuthError::TokenCreation(m) => m@,
            AuthError::MissingChallenge(m) => m@,
            AuthError::MissingParameter(m) => m@,
            AuthError::ReadSessionError(m) => m@,
            AuthError::WriteSessionError(m) => m@,
            AuthError::InvalidUrl(m) => m@,
            AuthError::UnsupportedProvider(m) => m@,
            AuthError::InternalError(m) => m@,
            AuthError::InvalidResponse(m) => m@,
            AuthError::TncSessionResponseError(m) => m@,
            AuthError::ConfigError(m) => m@,
            AuthError::DriveTokenError(m) => m@,
            AuthError::Unauthorized(m) => m@,
            AuthError::InvalidHeaderValue(m) => m@,
            AuthError::ProjectIdError(m) => m@,
            AuthError::MissingQuery(m) => m@,
        }
    }

    /// The HTTP status that the error is reported with.
    pub open spec fn spec_status(self) -> u16 {
        match self {
            AuthError::MissingProperty(_) => 400,
            AuthError::MissingSession(_) => 204,
            AuthError::JsonParsingError(_) => 500,
            AuthError::MissingCookie(_) => 401,
            AuthError::TokenCreation(_) => 500,
            AuthError::MissingChallenge(_) => 401,
            AuthError::MissingParameter(_) => 400,
            AuthError::ReadSessionError(_) => 401,
            AuthError::WriteSessionError(_) => 500,
            AuthError::InvalidUrl(_) => 404,
            AuthError::UnsupportedProvider(_) => 400,
            AuthError::InternalError(_) => 500,
            AuthError::InvalidResponse(_) => 401,
            AuthError::TncSessionResponseError(_) => 400,
            AuthError::ConfigError(_) => 500,
            AuthError::DriveTokenError(_) => 401,
            AuthError::Unauthorized(_) => 401,
            AuthError::InvalidHeaderValue(_) => 500,
            AuthError::ProjectIdError(_) => 400,
            AuthError::MissingQuery(_) => 500,
        }
    }

    /// The HTTP status that the error is reported with.
    pub fn status_code(&self) -> (r: u16)
        ensures
            r == self.spec_status(),
    {
        match self {
            AuthError::MissingProperty(_) => 400,
            AuthError::MissingSession(_) => 204,
            AuthError::JsonParsingError(_) => 500,
            AuthError::MissingCookie(_) => 401,
            AuthError::TokenCreation(_) => 500,
            AuthError::MissingChallenge(_) => 401,
            AuthError::MissingParameter(_) => 400,
            AuthError::ReadSessionError(_) => 401,
            AuthError::WriteSessionError(_) => 500,
            AuthError::InvalidUrl(_) => 404,
            AuthError::UnsupportedProvider(_) => 400,
            AuthError::InternalError(_) => 500,
            AuthError::InvalidResponse(_) => 401,
            AuthError::TncSessionResponseError(_) => 400,
            AuthError::ConfigError(_) => 500,
            AuthError::DriveTokenError(_) => 401,
            AuthError::Unauthorized(_) => 401,
            AuthError::InvalidHeaderValue(_) => 500,
            AuthError::ProjectIdError(_) => 400,
            AuthError::MissingQuery(_) => 500,
        }
    }

    /// The fixed, sanitized label reported beside the message.
    pub fn label(&self) -> (r: &'static str)
        ensures
            r@ == error_label(*self),
    {
        match self {
            AuthError::MissingProperty(_) => "Missing data from the provider",
            AuthError::MissingSession(_) => "Missing session",
            AuthError::JsonParsingError(_) => "Parsing the response body failed",
            AuthError::MissingCookie(_) => "Failed to request a session token",
            AuthError::TokenCreation(_) => "Token creation error",
            AuthError::MissingChallenge(_) => "Missing credentials",
            AuthError::MissingParameter(_) => "The request is missing a parameter",
            AuthError::ReadSessionError(_) => "Could not read from session",
            AuthError::WriteSessionError(_) => "Could not write to session",
            AuthError::InvalidUrl(_) => "Malformed url",
            AuthError::UnsupportedProvider(_) => "Invalid oauth provider",
            AuthError::InternalError(_) => "Internal error",
            AuthError::InvalidResponse(_) => "Response failed to validate",
            AuthError::TncSessionResponseError(_) => "Could not create a session",
            AuthError::ConfigError(_) => "Configuration error",
            AuthError::DriveTokenError(_) => "Failed to retrieve token",
            AuthError::Unauthorized(_) => "Missing credentials",
            AuthError::InvalidHeaderValue(_) => "Failed HeaderValue",
            AuthError::ProjectIdError(_) => "Require a valid project id",
            AuthError::MissingQuery(_) => "Missing query",
        }
    }

    /// The detail message carried by the error.
    pub fn message(&self) -> (r: &Message)
        ensures
            r@ == self.detail(),
    {
        match self {
            AuthError::MissingProperty(m) => m,
            AuthError::MissingSession(m) => m,
            AuthError::JsonParsingError(m) => m,
            AuthError::MissingCookie(m) => m,
            AuthError::TokenCreation(m) => m,
            AuthError::MissingChallenge(m) => m,
            AuthError::MissingParameter(m) => m,
            AuthError::ReadSessionError(m) => m,
            AuthError::WriteSessionError(m) => m,
            AuthError::InvalidUrl(m) => m,
            AuthError::UnsupportedProvider(m) => m,
            AuthError::InternalError(m) => m,
            AuthError::InvalidResponse(m) => m,
            AuthError::TncSessionResponseError(m) => m,
            AuthError::ConfigError(m) => m,
            AuthError::DriveTokenError(m) => m,
            AuthError::Unauthorized(m) => m,
            AuthError::InvalidHeaderValue(m) => m,
            AuthError::ProjectIdError(m) => m,
            AuthError::MissingQuery(m) => m,
        }
    }

    /// Hands the error on unchanged; reporting is left to the caller.
    pub fn trace(self) -> (r: Self)
        ensures
            r == self,
    {
        self
    }

    /// Hands the error on unchanged; the extra context is for the caller's
    /// report only.
    pub fn trace_with_more(self, message: Option<&str>, err: Option<&str>) -> (r: Self)
        ensures
            r == self,
    {
        self
    }

    /// An internal error from the rendering of an underlying failure, with an
    /// optional leading line of context.
    pub fn new(err: &str, message: Option<String>) -> (r: Self)
        ensures
            r is InternalError,
            r.detail() == Some(
                match message {
                    None => err@,
                    Some(m) => m@ + "\n"@ + err@,
                },
            ),
    {
        let text = match message {
            None => err.to_owned(),
            Some(m) => {
                let lead = m.concat("\n");
                lead.concat(err)
            },
        };
        AuthError::InternalError(Message(Some(text)))
    }
}

/// The label of each error, as in [`AuthError::label`].
pub open spec fn error_label(e: AuthError) -> Seq<char> {
    match e {
        AuthError::MissingProperty(_) => "Missing data from the provider"@,
        AuthError::MissingSession(_) => "Missing session"@,
        AuthError::JsonParsingError(_) => "Parsing the response body failed"@,
        AuthError::MissingCookie(_) => "Failed to request a session token"@,
        AuthError::TokenCreation(_) => "Token creation error"@,
        AuthError::MissingChallenge(_) => "Missing credentials"@,
        AuthError::MissingParameter(_) => "The request is missing a parameter"@,
        AuthError::ReadSessionError(_) => "Could not read from session"@,
        AuthError::WriteSessionError(_) => "Could not write to session"@,
        AuthError::InvalidUrl(_) => "Malformed url"@,
        AuthError::UnsupportedProvider(_) => "Invalid oauth provider"@,
        AuthError::InternalError(_) => "Internal error"@,
        AuthError::InvalidResponse(_) => "Response failed to validate"@,
        AuthError::TncSessionResponseError(_) => "Could not create a session"@,
        AuthError::ConfigError(_) => "Configuration error"@,
        AuthError::DriveTokenError(_) => "Failed to retrieve token"@,
        AuthError::Unauthorized(_) => "Missing credentials"@,
        AuthError::InvalidHeaderValue(_) => "Failed HeaderValue"@,
        AuthError::ProjectIdError(_) => "Require a valid project id"@,
        AuthError::MissingQuery(_) => "Missing query"@,
    }
}

/// A payload that could not be read, with the reader's own words.
pub fn decode(e: &str) -> (r: AuthError)
    ensures
        r is JsonParsingError,
        r.detail() == message_of(e@),
{
    AuthError::JsonParsingError(Message::from_str(e))
}

} // verus!
