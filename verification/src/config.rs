//! Parameters of the chain that the decoders are made with.

use vstd::prelude::*;

verus! {

/// The number of threads.
pub const THREAD_COUNT: u8 = 32;

/// The number of endorsements per block.
pub const ENDORSEMENT_COUNT: u32 = 16;

} // verus!
