//! Token transaction system data structures: fungible and non-fungible
//! tokens share one transaction system.

use vstd::prelude::*;

pub mod ft;
pub mod nft;

verus! {

/// Transaction system identifier shared by fungible and non-fungible
/// tokens.
pub const SYSTEM_ID: u32 = 2;

} // verus!
