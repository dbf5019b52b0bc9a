//! Replies of the Minecraft session server.

use vstd::prelude::*;

verus! {

/// The session server's answer for a player who joined: their id and name.
pub struct AuthResponse {
    pub id: u128,
    pub name: String,
}

} // verus!
