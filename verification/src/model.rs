//! The values that requests and the user store hand to the handlers.

use vstd::prelude::*;

verus! {

/// Body of a login request.
#[derive(Clone, Debug, PartialEq, Eq)]
pub struct Login {
    pub user: String,
    pub pass: String,
}

/// A stored user. `password` holds a bcrypt hash, never the password itself.
#[derive(Clone, Debug, PartialEq, Eq)]
pub struct User {
    pub username: String,
    pub password: String,
}

/// How looking a user up by name ended. Names are unique, so a lookup finds
/// at most one user.
#[derive(Clone, Debug, PartialEq, Eq)]
pub enum UserLookup {
    /// The store holds this user under the name.
    Found(User),
    /// The store holds no user of that name.
    NotFound,
    /// The store could not answer.
    Failed,
}

/// Body of a send request: what to send, and the id of the node to send it to.
#[derive(Clone, Debug, PartialEq, Eq)]
pub struct Message {
    pub content: String,
    pub dest: u32,
}

/// A sensor node to be stored: its id, its display name and the unit of its
/// readings.
#[derive(Clone, Debug, PartialEq, Eq)]
pub struct NewXbee {
    pub node_id: i32,
    pub name: String,
    pub units: String,
}

} // verus!
