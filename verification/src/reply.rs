//! The replies the endpoints give. Each one is a success flag plus, at most,
//! one more member: an error message, the echoed content, or the node list.

use vstd::prelude::*;
use crate::model::NewXbee;
use crate::session::CookieAction;

verus! {

/// Why a login was refused.
#[derive(Clone, Copy, Debug, PartialEq, Eq)]
pub enum ApiError {
    /// The store holds no user of the given name.
    UnknownUser,
    /// The user exists, but the password does not match the stored hash, or
    /// the stored hash could not be checked at all.
    InvalidCredentials,
    /// The lookup failed for any other reason.
    Database,
}

impl ApiError {
    /// The message shown to the client.
    pub open spec fn text(self) -> Seq<char> {
        match self {
            ApiError::UnknownUser => "No user with that name found."@,
            ApiError::InvalidCredentials => "Invalid login credentials."@,
            ApiError::Database => "Error getting information from database."@,
        }
    }

    /// The message shown to the client.
    pub fn message(self) -> (text: &'static str)
        ensures
            text@ == self.text(),
    {
        match self {
            ApiError::UnknownUser => "No user with that name found.",
            ApiError::InvalidCredentials => "Invalid login credentials.",
            ApiError::Database => "Error getting information from database.",
        }
    }
}

/// A reply that reports success or failure, with the reason for a failure
/// where there is one to give.
#[derive(Clone, Copy, Debug, PartialEq, Eq)]
pub struct Reply {
    pub error: Option<ApiError>,
    pub success: bool,
}

impl Reply {
    /// The reply `{success: true}`.
    pub open spec fn succeeded() -> Reply {
        Reply { error: None, success: true }
    }

    /// The reply `{success: false, error: ..}` for the given reason.
    pub open spec fn failed(error: ApiError) -> Reply {
        Reply { error: Some(error), success: false }
    }

    /// The error message of this reply, if it carries one.
    pub open spec fn error_text(self) -> Option<Seq<char>> {
        match self.error {
            Some(error) => Some(error.text()),
            None => None,
        }
    }

    /// The error message of this reply, if it carries one.
    pub fn error_message(&self) -> (text: Option<&'static str>)
        ensures
            text is Some <==> self.error is Some,
            text matches Some(t) ==> self.error_text() == Some(t@),
    {
        match self.error {
            Some(error) => Some(error.message()),
            None => None,
        }
    }
}

/// A reply together with what the server is to do with the session cookie.
#[derive(Clone, Copy, Debug, PartialEq, Eq)]
pub struct AuthOutcome {
    pub reply: Reply,
    pub cookie: CookieAction,
}

/// A reply together with the row the server is to insert into the node table.
#[derive(Clone, Debug, PartialEq, Eq)]
pub struct AddOutcome {
    pub insert: NewXbee,
    pub reply: Reply,
}

/// The reply to a message that was sent: the content, echoed back.
#[derive(Clone, Debug, PartialEq, Eq)]
pub struct SendReply {
    pub content: String,
    pub success: bool,
}

/// The reply to a request for the node list. `nodes` is absent on failure.
#[derive(Clone, Debug, PartialEq, Eq)]
pub struct ListReply<N> {
    pub nodes: Option<Vec<N>>,
    pub success: bool,
}

} // verus!
