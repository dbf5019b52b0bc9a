//! Keys under which the bot keeps its shared state.

use vstd::prelude::*;

verus! {

/// The key of the configuration.
pub struct TypeMapConfig;

/// The key of the member-to-rooms cache.
pub struct TypeMapSharedCache;

/// The key of the pending verification codes.
pub struct TypeMapVerificationCodes;

} // verus!
