//! Limits of the network layer that carries denunciations.

use vstd::prelude::*;

verus! {

/// Capacity of the channels between the network tasks.
pub const CHANNEL_SIZE: usize = 256;

/// Capacity of the channel towards one node.
pub const NODE_SEND_CHANNEL_SIZE: usize = 1024;

/// The most peers advertised to another node.
pub const MAX_ADVERTISE_LENGTH: u32 = 10000;

/// The longest message, in bytes.
pub const MAX_MESSAGE_SIZE: u32 = 1048576000;

/// The most block hashes in one request for blocks.
pub const MAX_ASK_BLOCKS_PER_MESSAGE: u32 = 128;

/// The most operations in one message.
pub const MAX_OPERATIONS_PER_MESSAGE: u32 = 1024;

/// The most endorsements in one message.
pub const MAX_ENDORSEMENTS_PER_MESSAGE: u32 = 1024;

/// Bytes of randomness exchanged in a handshake.
pub const HANDSHAKE_RANDOMNESS_SIZE_BYTES: usize = 32;

/// Connection limits for one type of peer.
#[derive(Clone, Copy, Debug, PartialEq, Eq, Structural)]
pub struct PeerTypeConnectionConfig {
    /// The most incoming connections.
    pub max_in: usize,
    /// The number of outgoing connections aimed at.
    pub target_out: usize,
    /// The most outgoing connection attempts at a time.
    pub max_out_attempts: usize,
}

} // verus!
