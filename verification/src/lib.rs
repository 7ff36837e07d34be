//! Codec between a Soroban address and its 32-byte payload.
//!
//! An address produced by the host is either an account identity (an Ed25519
//! public key) or a contract identity (a contract hash); both carry exactly
//! 32 bytes of payload, tagged differently inside the host's XDR encoding.
//! This crate parses that tagged encoding into a payload type and the raw
//! 32 bytes, and rebuilds the encoding from a payload type and 32 bytes.

use vstd::prelude::*;

pub mod codec;
pub mod host;

pub use host::AddressPayloadExt;

verus! {

/// The type of payload contained in an address.
#[derive(Copy, Clone, Debug, Eq, PartialEq, Structural)]
pub enum AddressPayloadType {
    /// An Ed25519 public key from an account address (G...).
    AccountEd25519PublicKey,
    /// A contract hash from a contract address (C...).
    ContractHash,
}

} // verus!
