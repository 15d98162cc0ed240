//! Builders for cross-chain messages that schedule a remote call on an
//! automation chain, fund its execution and refund what is left.
use vstd::prelude::*;

pub mod assembly;
pub mod generator;
pub mod instruction;
pub mod laws;

verus! {

/// The most weight the embedded transact instruction may consume.
pub const MAX_XCM_TRANSACT_WEIGHT: u64 = 6_000_000_000;

/// The parachain identifier of the automation chain that runs scheduled tasks.
pub const TURING_PARA_ID: u32 = 2114;

} // verus!
