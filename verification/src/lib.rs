//! Denunciations: self-contained proofs that one key signed two conflicting
//! endorsements, or two conflicting block headers, for the same slot.
//!
//! The crate holds the data model, the construction of a denunciation from two
//! pieces of signed evidence, its validity check and its wire format.

pub mod block_header;
pub mod block_id;
pub mod bytes;
pub mod codec;
pub mod config;
pub mod denunciation;
pub mod endorsement;
pub mod error;
pub mod hash;
pub mod laws;
pub mod settings;
pub mod signature;
pub mod slot;
pub mod varint;
