//! The session cookie, the guard that reads it, and what a handler may ask
//! the server to do with it.
//!
//! A session is nothing but a flag: the private cookie `auth`. Its presence
//! alone grants access, whatever its value; there is no expiry and no payload.
//! The cookie lives with the client between requests, so handlers never touch
//! a jar. They return a [`CookieAction`], the server carries it out, and
//! [`Session::follow`] says what the next request then carries.

use vstd::prelude::*;

verus! {

/// Name of the private cookie that marks a logged-in session.
pub const AUTH_COOKIE: &'static str = "auth";

/// Value the cookie is issued with.
pub const AUTH_VALUE: &'static str = "true";

/// What a handler asks the server to do with the session cookie.
#[derive(Clone, Copy, Debug, PartialEq, Eq)]
pub enum CookieAction {
    /// Leave the client's cookies as they are.
    Keep,
    /// Add the private cookie [`AUTH_COOKIE`] with the value [`AUTH_VALUE`].
    Issue,
    /// Remove the private cookie [`AUTH_COOKIE`].
    Revoke,
}

/// The session cookie a client holds once the server has carried out
/// `action`, given the one it held before. The client is taken to keep what
/// it is sent and to send it back unchanged.
pub open spec fn cookie_after(cookie: Option<Seq<char>>, action: CookieAction) -> Option<
    Seq<char>,
> {
    match action {
        CookieAction::Keep => cookie,
        CookieAction::Issue => Some(AUTH_VALUE@),
        CookieAction::Revoke => None,
    }
}

/// What a request carries of the session: the value of its private `auth`
/// cookie, if it has one.
#[derive(Clone, Debug, PartialEq, Eq)]
pub struct Session {
    pub auth: Option<String>,
}

impl View for Session {
    type V = Option<Seq<char>>;

    open spec fn view(&self) -> Option<Seq<char>> {
        match self.auth {
            Some(value) => Some(value@),
            None => None,
        }
    }
}

impl Session {
    /// The session of a request without the cookie.
    pub fn anonymous() -> (session: Session)
        ensures
            session@ is None,
    {
        Session { auth: None }
    }

    /// The session of a request whose private `auth` cookie holds `value`.
    pub fn with_cookie(value: String) -> (session: Session)
        ensures
            session@ == Some(value@),
    {
        Session { auth: Some(value) }
    }

    /// The session of the client's next request, once the server has carried
    /// out `action` in answer to this one.
    pub fn follow(self, action: CookieAction) -> (next: Session)
        ensures
            next@ == cookie_after(self@, action),
    {
        match action {
            CookieAction::Keep => self,
            CookieAction::Issue => Session { auth: Some(AUTH_VALUE.to_owned()) },
            CookieAction::Revoke => Session { auth: None },
        }
    }
}

/// A user who is authorized through the session cookie. A user becomes
/// authorized by logging in with the proper credentials; endpoints that need
/// authorization take a value of this type.
#[derive(Clone, Copy, Debug, PartialEq, Eq)]
pub struct AuthedUser;

/// How the guard answers a request.
#[derive(Clone, Copy, Debug, PartialEq, Eq)]
pub enum Outcome {
    /// The request is authorized and goes to the guarded handler.
    Success(AuthedUser),
    /// The request is not authorized. It is not rejected: it is passed on to
    /// the next handler in line.
    Forward,
}

/// The guard's decision for a request that carries `cookie`.
pub open spec fn guard(cookie: Option<Seq<char>>) -> Outcome {
    if cookie is Some {
        Outcome::Success(AuthedUser)
    } else {
        Outcome::Forward
    }
}

impl AuthedUser {
    /// Decides how an authorized user's request is handled: with the cookie
    /// present it succeeds, whatever the cookie's value; without it the
    /// request is forwarded.
    pub fn from_request(session: &Session) -> (outcome: Outcome)
        ensures
            outcome == guard(session@),
    {
        match &session.auth {
            Some(_) => Outcome::Success(AuthedUser),
            None => Outcome::Forward,
        }
    }
}

} // verus!
