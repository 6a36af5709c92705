//! What the endpoints guarantee, taken together.

use vstd::prelude::*;
use crate::api::{list_reply, login_outcome, logout_outcome};
use crate::model::{User, UserLookup};
use crate::password::bcrypt_verify;
use crate::reply::{ApiError, AuthOutcome, ListReply, Reply};
use crate::session::{cookie_after, guard, AuthedUser, CookieAction, Outcome};

verus! {

/// A login under a name that the store does not know fails with the message
/// "No user with that name found.", whatever password was sent, and leaves
/// the client's cookies alone.
pub proof fn unknown_user_is_told_so(pass: Seq<char>)
    ensures
        login_outcome(UserLookup::NotFound, pass) == (AuthOutcome {
            reply: Reply { error: Some(ApiError::UnknownUser), success: false },
            cookie: CookieAction::Keep,
        }),
        login_outcome(UserLookup::NotFound, pass).reply.error_text() == Some(
            "No user with that name found."@,
        ),
{
}

/// A login under a known name fails with the message "Invalid login
/// credentials." unless the password matches the stored hash, and leaves the
/// client's cookies alone.
pub proof fn wrong_password_is_refused(user: User, pass: Seq<char>)
    ensures
        bcrypt_verify(pass, user.password@) != Some(true) ==> login_outcome(
            UserLookup::Found(user),
            pass,
        ) == (AuthOutcome {
            reply: Reply { error: Some(ApiError::InvalidCredentials), success: false },
            cookie: CookieAction::Keep,
        }),
        bcrypt_verify(pass, user.password@) != Some(true) ==> login_outcome(
            UserLookup::Found(user),
            pass,
        ).reply.error_text() == Some("Invalid login credentials."@),
{
}

/// A login that the store could not look up fails with the message "Error
/// getting information from database.", and leaves the client's cookies
/// alone.
pub proof fn failed_lookup_is_reported(pass: Seq<char>)
    ensures
        login_outcome(UserLookup::Failed, pass) == (AuthOutcome {
            reply: Reply { error: Some(ApiError::Database), success: false },
            cookie: CookieAction::Keep,
        }),
        login_outcome(UserLookup::Failed, pass).reply.error_text() == Some(
            "Error getting information from database."@,
        ),
{
}

/// A login with the right password succeeds, and a request that carries the
/// cookie it issued passes the guard and is answered with the node list. It
/// does not matter what cookie the client held before.
pub proof fn login_opens_the_node_list<N>(
    user: User,
    pass: Seq<char>,
    before: Option<Seq<char>>,
    nodes: Vec<N>,
)
    ensures
        bcrypt_verify(pass, user.password@) == Some(true) ==> {
            let out = login_outcome(UserLookup::Found(user), pass);
            let after = cookie_after(before, out.cookie);
            &&& out.reply == (Reply { error: None, success: true })
            &&& out.reply.error_text() is None
            &&& guard(after) == Outcome::Success(AuthedUser)
            &&& list_reply(after, nodes) == (ListReply { nodes: Some(nodes), success: true })
        },
{
}

/// A logout always succeeds, and a request that follows it is forwarded by
/// the guard and gets the bare failure in place of the node list. It does not
/// matter what cookie the client held before.
pub proof fn logout_closes_the_node_list<N>(before: Option<Seq<char>>, nodes: Vec<N>)
    ensures
        logout_outcome().reply == (Reply { error: None, success: true }),
        guard(cookie_after(before, logout_outcome().cookie)) == Outcome::Forward,
        list_reply(cookie_after(before, logout_outcome().cookie), nodes) == (ListReply::<N> {
            nodes: None,
            success: false,
        }),
{
}

/// A request for the node list without the cookie gets the bare failure: no
/// node data goes out, whatever nodes are on record.
pub proof fn list_without_cookie_gives_nothing<N>(nodes: Vec<N>)
    ensures
        list_reply(None, nodes) == (ListReply::<N> { nodes: None, success: false }),
{
}

/// A login issues the cookie exactly when it reports success, and reports
/// success exactly when it gives no error. A refused login leaves the
/// client's cookies alone, so it opens nothing that was closed before.
pub proof fn cookie_is_issued_exactly_on_success(
    lookup: UserLookup,
    pass: Seq<char>,
    before: Option<Seq<char>>,
)
    ensures
        ({
            let out = login_outcome(lookup, pass);
            &&& out.reply.success <==> out.reply.error is None
            &&& out.reply.success ==> out.cookie == CookieAction::Issue
            &&& !out.reply.success ==> out.cookie == CookieAction::Keep
            &&& !out.reply.success ==> guard(cookie_after(before, out.cookie)) == guard(before)
        }),
{
}

/// The guard goes by the presence of the cookie alone: every value admits.
pub proof fn any_cookie_value_is_admitted(value: Seq<char>)
    ensures
        guard(Some(value)) == Outcome::Success(AuthedUser),
        guard(None) == Outcome::Forward,
{
}

} // verus!
