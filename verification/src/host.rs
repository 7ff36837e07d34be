//! Boundary with the host environment that owns the opaque address values.
//!
//! The host's generic marshalling — an opaque address value to its canonical
//! XDR byte buffer and back — is outside this crate's scope and is reached
//! through trusted wrappers. Everything between the two marshalling calls,
//! the parsing and rebuilding of the tagged buffer, is verified in
//! [`crate::codec`].

use vstd::prelude::*;

use crate::codec::{
    decode_payload, encode_payload, is_tag, lemma_decode_encode, lemma_decoded_payload_len,
    spec_encode, PAYLOAD_LEN, VAL_ADDRESS,
};
use crate::AddressPayloadType;
use soroban_sdk::xdr::{FromXdr, ToXdr};
use soroban_sdk::{Address, Env};

verus! {

#[verifier::external_type_specification]
#[verifier::external_body]
pub struct ExEnv(Env);

#[verifier::external_type_specification]
#[verifier::external_body]
pub struct ExAddress(Address);

/// The buffer is byte for byte the encoding of a known variant with a full
/// 32-byte payload — the shape the host accepts back as an address value.
pub open spec fn is_encoded_address(b: Seq<u8>) -> bool {
    exists|t: AddressPayloadType, p: Seq<u8>|
        p.len() == PAYLOAD_LEN && b == #[trigger] spec_encode(t, p)
}

/// Relies on `soroban_sdk::xdr::ToXdr` for `Address`: serializes the value to
/// its canonical XDR bytes, the `ScVal` form, whose leading 4-byte
/// discriminant for an address value is big-endian 18 (`ScValType::Address`).
#[verifier::external_body]
fn address_to_xdr_bytes(env: &Env, address: &Address) -> (r: Vec<u8>)
    ensures
        r@.len() >= 4,
        is_tag(r@, 0, VAL_ADDRESS),
{
    let b = address.clone().to_xdr(env);
    let mut v = vec![0u8; b.len() as usize];
    b.copy_into_slice(&mut v);
    v
}

/// Relies on `soroban_sdk::xdr::FromXdr` for `Address`: deserializes XDR
/// bytes back into an opaque address value, or reports that the host did not
/// accept them. `from_xdr` documents a panic on bytes that are not valid XDR
/// for an `ScVal`; the precondition keeps every call on the encodings of the
/// known address shapes, which are valid by construction.
#[verifier::external_body]
fn address_from_xdr_bytes(env: &Env, buf: &Vec<u8>) -> (r: Option<Address>)
    requires
        is_encoded_address(buf@),
{
    let b = soroban_sdk::Bytes::from_slice(env, buf.as_slice());
    match Address::from_xdr(env, &b) {
        Ok(a) => Some(a),
        Err(_) => None,
    }
}

/// Extension methods for converting an opaque address value to and from its
/// payload type and raw 32-byte payload.
pub trait AddressPayloadExt: Sized {
    /// Extracts the payload type and the raw 32-byte payload from the
    /// address: the contract hash of a contract address, or the Ed25519
    /// public key of an account address.
    ///
    /// Returns `None` when the address's serialized form matches neither
    /// known shape, as for an address kind introduced to the network after
    /// this crate was written; it never panics on such an address.
    fn payload(&self, env: &Env) -> (r: Option<(AddressPayloadType, Vec<u8>)>)
        ensures
            (r matches Some((t, p)) ==> p@.len() == PAYLOAD_LEN),
    ;

    /// Constructs an address from a payload type and a 32-byte payload, the
    /// inverse of [`payload`](Self::payload): it rebuilds the serialized
    /// buffer that decodes to `(payload_type, payload)` and hands it to the
    /// host. Returns `None` only when the host declines the buffer.
    fn from_payload(env: &Env, payload_type: AddressPayloadType, payload: &Vec<u8>) -> (r: Option<
        Self,
    >)
        requires
            payload@.len() == PAYLOAD_LEN,
    ;
}

impl AddressPayloadExt for Address {
    fn payload(&self, env: &Env) -> (r: Option<(AddressPayloadType, Vec<u8>)>) {
        let xdr = address_to_xdr_bytes(env, self);
        let r = decode_payload(&xdr);
        proof {
            lemma_decoded_payload_len(xdr@);
        }
        r
    }

    fn from_payload(env: &Env, payload_type: AddressPayloadType, payload: &Vec<u8>) -> (r: Option<
        Address,
    >) {
        let xdr = encode_payload(payload_type, payload);
        proof {
            lemma_decode_encode(payload_type, payload@);
            assert(is_encoded_address(xdr@));
        }
        address_from_xdr_bytes(env, &xdr)
    }
}

} // verus!
