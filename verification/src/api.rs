//! The endpoints: login, logout, list, add and send.
//!
//! Endpoints that need an authorized user take an [`AuthedUser`], which the
//! guard hands out for requests that carry the session cookie. The node list
//! is the one endpoint with a second handler in line for everyone else.

use vstd::prelude::*;
use crate::model::{Login, Message, NewXbee, UserLookup};
use crate::password::{bcrypt_verify, verdict, verify_hash, accepts};
use crate::reply::{AddOutcome, ApiError, AuthOutcome, ListReply, Reply, SendReply};
use crate::session::{guard, AuthedUser, CookieAction, Outcome, Session};

verus! {

/// What a login ends in once the user is found and the password has been
/// checked against the stored hash: only a check that ran and found a match
/// logs the user in and issues the cookie. A mismatch and a hash that could
/// not be checked are both refused as invalid credentials.
pub open spec fn password_outcome(check: Option<bool>) -> AuthOutcome {
    if check == Some(true) {
        AuthOutcome { reply: Reply::succeeded(), cookie: CookieAction::Issue }
    } else {
        AuthOutcome {
            reply: Reply::failed(ApiError::InvalidCredentials),
            cookie: CookieAction::Keep,
        }
    }
}

/// What a login ends in, given how the lookup of the user went and the
/// password that was sent.
pub open spec fn login_outcome(lookup: UserLookup, pass: Seq<char>) -> AuthOutcome {
    match lookup {
        UserLookup::Found(user) => password_outcome(bcrypt_verify(pass, user.password@)),
        UserLookup::NotFound => AuthOutcome {
            reply: Reply::failed(ApiError::UnknownUser),
            cookie: CookieAction::Keep,
        },
        UserLookup::Failed => AuthOutcome {
            reply: Reply::failed(ApiError::Database),
            cookie: CookieAction::Keep,
        },
    }
}

/// What a logout ends in: it always succeeds and revokes the cookie, whether
/// or not the client held one.
pub open spec fn logout_outcome() -> AuthOutcome {
    AuthOutcome { reply: Reply::succeeded(), cookie: CookieAction::Revoke }
}

/// The reply to a request for the node list that carries `cookie`, with
/// `nodes` being the nodes on record.
pub open spec fn list_reply<N>(cookie: Option<Seq<char>>, nodes: Vec<N>) -> ListReply<N> {
    match guard(cookie) {
        Outcome::Success(_) => ListReply { nodes: Some(nodes), success: true },
        Outcome::Forward => ListReply { nodes: None, success: false },
    }
}

/// Second half of a login: turns the result of checking the password against
/// the stored hash into the reply and the cookie action.
pub fn conclude_login(checked: &Result<bool, bcrypt::BcryptError>) -> (out: AuthOutcome)
    ensures
        out == password_outcome(verdict(*checked)),
{
    if accepts(checked) {
        AuthOutcome {
            reply: Reply { error: None, success: true },
            cookie: CookieAction::Issue,
        }
    } else {
        AuthOutcome {
            reply: Reply { error: Some(ApiError::InvalidCredentials), success: false },
            cookie: CookieAction::Keep,
        }
    }
}

/// Login endpoint. `lookup` is how the search for a user named
/// `credentials.user` ended.
///
/// A user that was found is logged in if `credentials.pass` matches the stored
/// bcrypt hash: the reply reports success and the session cookie is issued.
/// Every other case is refused with its own message, and leaves the client's
/// cookies alone.
pub fn login(credentials: &Login, lookup: &UserLookup) -> (out: AuthOutcome)
    ensures
        out == login_outcome(*lookup, credentials.pass@),
{
    match lookup {
        UserLookup::Found(user) => {
            let checked = verify_hash(credentials.pass.as_str(), user.password.as_str());
            conclude_login(&checked)
        },
        UserLookup::NotFound => AuthOutcome {
            reply: Reply { error: Some(ApiError::UnknownUser), success: false },
            cookie: CookieAction::Keep,
        },
        UserLookup::Failed => AuthOutcome {
            reply: Reply { error: Some(ApiError::Database), success: false },
            cookie: CookieAction::Keep,
        },
    }
}

/// Logout endpoint. Once its cookie action is carried out, the client can no
/// longer reach the endpoints that need authorization.
pub fn logout() -> (out: AuthOutcome)
    ensures
        out == logout_outcome(),
{
    AuthOutcome { reply: Reply { error: None, success: true }, cookie: CookieAction::Revoke }
}

/// Send endpoint: acknowledges a message for the node network by echoing its
/// content.
pub fn send(message: &Message, _user: AuthedUser) -> (reply: SendReply)
    ensures
        reply.success,
        reply.content@ == message.content@,
{
    SendReply { content: message.content.clone(), success: true }
}

/// Add endpoint: has the given node inserted, as it came, and reports
/// success. The reply is the same however the insert then goes; nothing
/// looks for a node of the same id.
pub fn add(xbee: NewXbee, _user: AuthedUser) -> (out: AddOutcome)
    ensures
        out.insert == xbee,
        out.reply == Reply::succeeded(),
{
    AddOutcome { insert: xbee, reply: Reply { error: None, success: true } }
}

/// List endpoint for an authorized user: all nodes on record, in the order
/// they were given.
pub fn list_authed<N>(nodes: Vec<N>, _user: AuthedUser) -> (reply: ListReply<N>)
    ensures
        reply == (ListReply { nodes: Some(nodes), success: true }),
{
    ListReply { nodes: Some(nodes), success: true }
}

/// List endpoint for everyone else: a bare failure, without any node data.
pub fn list_invalid<N>() -> (reply: ListReply<N>)
    ensures
        reply == (ListReply::<N> { nodes: None, success: false }),
{
    ListReply { nodes: None, success: false }
}

/// Answers a request for the node list: the guard decides which of the two
/// list handlers gets it.
pub fn list<N>(session: &Session, nodes: Vec<N>) -> (reply: ListReply<N>)
    ensures
        reply == list_reply(session@, nodes),
{
    match AuthedUser::from_request(session) {
        Outcome::Success(user) => list_authed(nodes, user),
        Outcome::Forward => list_invalid(),
    }
}

} // verus!
