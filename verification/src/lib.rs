//! Authenticated session, error-envelope, and pagination logic for a
//! cookie-based REST API client.
//!
//! The library owns the decision logic of the client: how the anti-forgery
//! token is refreshed after a challenge, how response bodies are resolved
//! into typed values or structured errors, and how cursor-paginated
//! collections are walked to completion. The HTTP transport itself lives
//! outside the library and feeds plain values (status codes, header values,
//! parsed page fields) into the state machines defined here.

use vstd::prelude::*;

pub mod errors;
pub mod games;
pub mod paginator;
pub mod session;
pub mod text;
pub mod urls;
pub mod users;

verus! {

/// A logical client: one authenticated identity with its session state.
#[derive(Clone, Debug)]
pub struct Client {
    pub session: Session,
}

/// Per-chain session state: the rotating anti-forgery token, absent until
/// the server has issued one in response to a challenged request. Cloning
/// a session duplicates the token: each clone refreshes independently, so
/// a session is affinitized to one logical request chain at a time.
#[derive(Clone, Debug)]
pub struct Session {
    pub token: Option<String>,
}

impl Session {
    /// A fresh session holds no anti-forgery token yet.
    pub fn new() -> (s: Session)
        ensures
            s.token is None,
    {
        Session { token: None }
    }
}

impl Client {
    /// Create a new client instance with a fresh session.
    pub fn new() -> (c: Client)
        ensures
            c.session.token is None,
    {
        Client { session: Session::new() }
    }
}

impl Default for Client {
    fn default() -> (c: Client)
        ensures
            c.session.token is None,
    {
        Client::new()
    }
}

impl Default for Session {
    fn default() -> (s: Session)
        ensures
            s.token is None,
    {
        Session::new()
    }
}

} // verus!
