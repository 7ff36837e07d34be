//! Byte-level codec for the host's tagged address encoding.
//!
//! The encoding is a fixed-format, tag-prefixed layout of 4-byte big-endian
//! discriminants followed by the raw 32-byte payload:
//!
//! - account / Ed25519 public key: `[0,0,0,18] [0,0,0,0] [0,0,0,0] payload`
//! - contract hash:                `[0,0,0,18] [0,0,0,1] payload`
//!
//! The leading 4 bytes are the host's "this value is an address" discriminant;
//! the decoder skips them without re-validation, as it is only ever invoked on
//! buffers the host serialized from an address value. Any buffer whose tags do
//! not match a known shape decodes to `None`, never to a panic, so callers
//! survive address kinds introduced after this crate was written.

use vstd::prelude::*;

use crate::AddressPayloadType;

verus! {

/// Final byte of the 4-byte discriminant marking a serialized address value.
pub const VAL_ADDRESS: u8 = 18;
/// Final byte of the 4-byte outer tag of the account shape.
pub const TAG_ACCOUNT: u8 = 0;
/// Final byte of the 4-byte outer tag of the contract shape.
pub const TAG_CONTRACT: u8 = 1;
/// Final byte of the 4-byte inner tag of the Ed25519 public-key shape.
pub const KEY_ED25519: u8 = 0;
/// Width of the payload carried by every recognized address shape.
pub const PAYLOAD_LEN: usize = 32;
/// Header width of the account shape: value discriminant, outer and inner tag.
pub const ACCOUNT_HEADER_LEN: usize = 12;
/// Header width of the contract shape: value discriminant and outer tag.
pub const CONTRACT_HEADER_LEN: usize = 8;

/// The 4 bytes of `b` at `off` form the big-endian tag whose value is `t`.
///
/// Every discriminant in the encoding is a 32-bit big-endian integer small
/// enough that its first three bytes are zero.
pub open spec fn is_tag(b: Seq<u8>, off: int, t: u8) -> bool {
    &&& b[off] == 0
    &&& b[off + 1] == 0
    &&& b[off + 2] == 0
    &&& b[off + 3] == t
}

/// Header bytes that `encode` places before the payload for type `t`.
pub open spec fn spec_header(t: AddressPayloadType) -> Seq<u8> {
    match t {
        AddressPayloadType::AccountEd25519PublicKey => seq![
            0u8, 0u8, 0u8, VAL_ADDRESS,
            0u8, 0u8, 0u8, TAG_ACCOUNT,
            0u8, 0u8, 0u8, KEY_ED25519,
        ],
        AddressPayloadType::ContractHash => seq![
            0u8, 0u8, 0u8, VAL_ADDRESS,
            0u8, 0u8, 0u8, TAG_CONTRACT,
        ],
    }
}

/// The full encoded buffer for type `t` and payload `p`: header, then payload.
pub open spec fn spec_encode(t: AddressPayloadType, p: Seq<u8>) -> Seq<u8> {
    spec_header(t) + p
}

/// What decoding a buffer yields: the payload type and the 32 payload bytes
/// when the tags match a known shape and the buffer carries a full payload,
/// and `None` otherwise.
///
/// The first 4 bytes (the address discriminant) are skipped unexamined.
pub open spec fn spec_decode(b: Seq<u8>) -> Option<(AddressPayloadType, Seq<u8>)> {
    if b.len() >= ACCOUNT_HEADER_LEN + PAYLOAD_LEN && is_tag(b, 4, TAG_ACCOUNT)
        && is_tag(b, 8, KEY_ED25519) {
        Some(
            (
                AddressPayloadType::AccountEd25519PublicKey,
                b.subrange(ACCOUNT_HEADER_LEN as int, (ACCOUNT_HEADER_LEN + PAYLOAD_LEN) as int),
            ),
        )
    } else if b.len() >= CONTRACT_HEADER_LEN + PAYLOAD_LEN && is_tag(b, 4, TAG_CONTRACT) {
        Some(
            (
                AddressPayloadType::ContractHash,
                b.subrange(CONTRACT_HEADER_LEN as int, (CONTRACT_HEADER_LEN + PAYLOAD_LEN) as int),
            ),
        )
    } else {
        None
    }
}

/// `Seq` view of a decode result, for relating the executable decoder to
/// [`spec_decode`].
pub open spec fn decoded_view(r: Option<(AddressPayloadType, Vec<u8>)>) -> Option<
    (AddressPayloadType, Seq<u8>),
> {
    match r {
        Some((t, p)) => Some((t, p@)),
        None => None,
    }
}

/// Whether `buf` holds at least `min_len` bytes and its 4 bytes at `off`
/// form the big-endian tag `t`.
fn shape_at(buf: &Vec<u8>, off: usize, t: u8, min_len: usize) -> (r: bool)
    requires
        off + 4 <= min_len,
    ensures
        r == (buf@.len() >= min_len && is_tag(buf@, off as int, t)),
{
    let n: usize = buf.len();
    n >= min_len && buf[off] == 0 && buf[off + 1] == 0 && buf[off + 2] == 0 && buf[off + 3] == t
}

/// Copy of `buf[lo..hi]` as a fresh vector.
fn subrange_vec(buf: &Vec<u8>, lo: usize, hi: usize) -> (r: Vec<u8>)
    requires
        lo <= hi <= buf@.len(),
    ensures
        r@ == buf@.subrange(lo as int, hi as int),
{
    let mut r: Vec<u8> = Vec::new();
    let mut i: usize = lo;
    while i < hi
        invariant
            lo <= i <= hi <= buf@.len(),
            r@ == buf@.subrange(lo as int, i as int),
        decreases hi - i,
    {
        r.push(buf[i]);
        i = i + 1;
        proof {
            assert(r@ =~= buf@.subrange(lo as int, i as int));
        }
    }
    r
}

/// Parses a serialized address buffer into its payload type and payload.
///
/// Returns `Some((t, p))` exactly when the buffer's tags match a known shape
/// and the buffer is long enough to carry the full 32-byte payload; `p` is
/// then the payload bytes at the shape's fixed offset. Returns `None` for
/// every other buffer, unrecognized future address kinds included.
pub fn decode_payload(buf: &Vec<u8>) -> (r: Option<(AddressPayloadType, Vec<u8>)>)
    ensures
        decoded_view(r) == spec_decode(buf@),
{
    if shape_at(buf, 4, TAG_ACCOUNT, ACCOUNT_HEADER_LEN + PAYLOAD_LEN) && shape_at(
        buf,
        8,
        KEY_ED25519,
        ACCOUNT_HEADER_LEN + PAYLOAD_LEN,
    ) {
        let p = subrange_vec(buf, ACCOUNT_HEADER_LEN, ACCOUNT_HEADER_LEN + PAYLOAD_LEN);
        Some((AddressPayloadType::AccountEd25519PublicKey, p))
    } else if shape_at(buf, 4, TAG_CONTRACT, CONTRACT_HEADER_LEN + PAYLOAD_LEN) {
        let p = subrange_vec(buf, CONTRACT_HEADER_LEN, CONTRACT_HEADER_LEN + PAYLOAD_LEN);
        Some((AddressPayloadType::ContractHash, p))
    } else {
        None
    }
}

/// Builds the header that precedes the payload of type `t`.
fn header_bytes(t: AddressPayloadType) -> (r: Vec<u8>)
    ensures
        r@ == spec_header(t),
{
    let mut r: Vec<u8> = Vec::new();
    r.push(0);
    r.push(0);
    r.push(0);
    r.push(VAL_ADDRESS);
    r.push(0);
    r.push(0);
    r.push(0);
    match t {
        AddressPayloadType::AccountEd25519PublicKey => {
            r.push(TAG_ACCOUNT);
            r.push(0);
            r.push(0);
            r.push(0);
            r.push(KEY_ED25519);
        },
        AddressPayloadType::ContractHash => {
            r.push(TAG_CONTRACT);
        },
    }
    proof {
        assert(r@ =~= spec_header(t));
    }
    r
}

/// Builds the serialized address buffer for type `t` and payload `p`:
/// the fixed header for `t`, then the payload appended verbatim.
///
/// This is the byte-exact inverse of [`decode_payload`] whenever `p` holds
/// exactly 32 bytes (see [`lemma_decode_encode`]).
pub fn encode_payload(t: AddressPayloadType, p: &Vec<u8>) -> (r: Vec<u8>)
    ensures
        r@ == spec_encode(t, p@),
{
    let mut r = header_bytes(t);
    let mut i: usize = 0;
    while i < p.len()
        invariant
            i <= p@.len(),
            r@ == spec_header(t) + p@.subrange(0, i as int),
        decreases p@.len() - i,
    {
        r.push(p[i]);
        i = i + 1;
        proof {
            assert(r@ =~= spec_header(t) + p@.subrange(0, i as int));
        }
    }
    proof {
        assert(p@.subrange(0, p@.len() as int) =~= p@);
    }
    r
}

/// Round-trip law: decoding an encoded buffer gives back the payload type
/// and payload, for both known variants and every 32-byte payload.
pub proof fn lemma_decode_encode(t: AddressPayloadType, p: Seq<u8>)
    requires
        p.len() == PAYLOAD_LEN,
    ensures
        spec_decode(spec_encode(t, p)) == Some((t, p)),
{
    let e = spec_encode(t, p);
    match t {
        AddressPayloadType::AccountEd25519PublicKey => {
            assert(is_tag(e, 4, TAG_ACCOUNT));
            assert(is_tag(e, 8, KEY_ED25519));
            assert(e.subrange(ACCOUNT_HEADER_LEN as int, (ACCOUNT_HEADER_LEN + PAYLOAD_LEN) as int)
                =~= p);
        },
        AddressPayloadType::ContractHash => {
            assert(is_tag(e, 4, TAG_CONTRACT));
            assert(e.subrange(
                CONTRACT_HEADER_LEN as int,
                (CONTRACT_HEADER_LEN + PAYLOAD_LEN) as int,
            ) =~= p);
        },
    }
}

/// Inverse law: a buffer that decodes to `(t, p)`, begins with the address
/// discriminant, and is exactly as long as an encoded value of type `t`, is
/// reproduced byte for byte by encoding `(t, p)`.
///
/// The two extra premises are owed to the decoder's leniency: it skips the
/// first 4 bytes unexamined and ignores bytes past the payload, so a buffer
/// that differs from an encoder output only there decodes the same way.
/// Buffers the host serializes from an address value satisfy both premises.
pub proof fn lemma_encode_decode(b: Seq<u8>, t: AddressPayloadType, p: Seq<u8>)
    requires
        spec_decode(b) == Some((t, p)),
        is_tag(b, 0, VAL_ADDRESS),
        b.len() == spec_header(t).len() + PAYLOAD_LEN,
    ensures
        spec_encode(t, p) == b,
{
    if b.len() >= ACCOUNT_HEADER_LEN + PAYLOAD_LEN && is_tag(b, 4, TAG_ACCOUNT)
        && is_tag(b, 8, KEY_ED25519) {
        assert(spec_encode(t, p) =~= b);
    } else {
        assert(spec_encode(t, p) =~= b);
    }
}

/// Forward-compatibility law: a buffer whose outer tag is neither the account
/// nor the contract tag decodes to `None`.
pub proof fn lemma_unknown_address_kind(b: Seq<u8>)
    requires
        !is_tag(b, 4, TAG_ACCOUNT),
        !is_tag(b, 4, TAG_CONTRACT),
    ensures
        spec_decode(b) is None,
{
}

/// Forward-compatibility law: a buffer with the account outer tag but an
/// inner tag other than the Ed25519 public-key tag decodes to `None`.
pub proof fn lemma_unknown_key_kind(b: Seq<u8>)
    requires
        is_tag(b, 4, TAG_ACCOUNT),
        !is_tag(b, 8, KEY_ED25519),
    ensures
        spec_decode(b) is None,
{
    assert(!is_tag(b, 4, TAG_CONTRACT));
}

/// Every payload a successful decode yields holds exactly 32 bytes.
pub proof fn lemma_decoded_payload_len(b: Seq<u8>)
    ensures
        spec_decode(b) matches Some((t, p)) ==> p.len() == PAYLOAD_LEN,
{
}

} // verus!
