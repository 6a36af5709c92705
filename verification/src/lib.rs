//! Request handling for a small sensor-network portal: password login against
//! stored bcrypt hashes, a session cookie that gates the node endpoints, and
//! the replies each endpoint gives.
//!
//! Nothing in here talks to a socket or a database. A handler takes the plain
//! values a server has already gathered for a request and returns the reply
//! to send, together with whatever the server is to do next (issue or revoke
//! the session cookie, insert a row).

pub mod model;
pub mod password;
pub mod reply;
pub mod session;
pub mod api;
pub mod guarantees;
