//! `room list` (a text command for sudoers).

use crate::embed::{error_str, is_error, Embed};
use vstd::prelude::*;

verus! {

/// The reply to `room list`: the command is not done yet.
pub fn list() -> (e: Embed)
    ensures
        is_error(e, "**Error**: Command still a WIP"@),
{
    error_str("**Error**: Command still a WIP")
}

} // verus!
