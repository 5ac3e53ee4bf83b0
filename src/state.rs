use vstd::prelude::*;
use crate::queries::AccountKey;

verus! {

/// Session facts handed over by the login flow: who the local player is and
/// the token that opens the game socket. No token means "do not connect".
#[derive(Debug, Clone, Default)]
pub struct ConnectionState {
    pub id: i32,
    pub username: String,
    pub token: Option<String>,
}

impl ConnectionState {
    /// The session that a successful login opens.
    pub fn from_key(key: AccountKey) -> (r: ConnectionState)
        ensures
            r.id == key.id,
            r.username == key.name,
            r.token == Some(key.token),
    {
        ConnectionState { id: key.id, username: key.name, token: Some(key.token) }
    }

    /// Whether the connection task should be started at all.
    pub fn should_connect(&self) -> (r: bool)
        ensures
            r == self.token.is_some(),
    {
        self.token.is_some()
    }
}

} // verus!
