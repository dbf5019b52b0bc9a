//! `me set`.

use crate::embed::{error_str, is_error, Embed};
use vstd::prelude::*;

verus! {

/// The reply to `me set`: the command is not done yet.
pub fn set() -> (e: Embed)
    ensures
        is_error(e, "**Error**: Command still a WIP"@),
{
    error_str("**Error**: Command still a WIP")
}

} // verus!
