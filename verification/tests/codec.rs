use soroban_address_payload_ext::codec::{decode_payload, encode_payload};
use soroban_address_payload_ext::AddressPayloadType;

const CONTRACT_HASH: [u8; 32] = [
    0xd7, 0x92, 0x8b, 0x72, 0xc2, 0x70, 0x3c, 0xcf, 0xea, 0xf7, 0xeb, 0x9f, 0xf4, 0xef, 0x4d,
    0x50, 0x4a, 0x55, 0xa8, 0xb9, 0x79, 0xfc, 0x9b, 0x45, 0x0e, 0xa2, 0xc8, 0x42, 0xb4, 0xd1,
    0xce, 0x61,
];

const ED25519_KEY: [u8; 32] = [
    0x89, 0x9b, 0x28, 0x40, 0xed, 0x56, 0x36, 0xc5, 0x6d, 0xdc, 0x5f, 0x14, 0xb2, 0x39, 0x75,
    0xf7, 0x9f, 0x1b, 0xa2, 0x38, 0x8d, 0x26, 0x94, 0xe4, 0xc5, 0x6e, 0xcd, 0xdd, 0xc9, 0x60,
    0xe5, 0xef,
];

fn contract_buffer(payload: &[u8]) -> Vec<u8> {
    let mut b = vec![0, 0, 0, 18, 0, 0, 0, 1];
    b.extend_from_slice(payload);
    b
}

fn account_buffer(payload: &[u8]) -> Vec<u8> {
    let mut b = vec![0, 0, 0, 18, 0, 0, 0, 0, 0, 0, 0, 0];
    b.extend_from_slice(payload);
    b
}

#[test]
fn decode_contract_vector() {
    let buf = contract_buffer(&CONTRACT_HASH);
    let (t, p) = decode_payload(&buf).unwrap();
    assert_eq!(t, AddressPayloadType::ContractHash);
    assert_eq!(p, CONTRACT_HASH.to_vec());
    assert_eq!(p.len(), 32);
}

#[test]
fn decode_account_vector() {
    let buf = account_buffer(&ED25519_KEY);
    let (t, p) = decode_payload(&buf).unwrap();
    assert_eq!(t, AddressPayloadType::AccountEd25519PublicKey);
    assert_eq!(p, ED25519_KEY.to_vec());
    assert_eq!(p.len(), 32);
}

#[test]
fn encode_contract_vector() {
    let buf = encode_payload(AddressPayloadType::ContractHash, &CONTRACT_HASH.to_vec());
    assert_eq!(buf, contract_buffer(&CONTRACT_HASH));
}

#[test]
fn encode_account_vector() {
    let buf = encode_payload(
        AddressPayloadType::AccountEd25519PublicKey,
        &ED25519_KEY.to_vec(),
    );
    assert_eq!(buf, account_buffer(&ED25519_KEY));
}

#[test]
fn round_trip_both_variants() {
    let payload: Vec<u8> = (0u8..32).collect();
    for t in [
        AddressPayloadType::AccountEd25519PublicKey,
        AddressPayloadType::ContractHash,
    ] {
        let encoded = encode_payload(t, &payload);
        let (decoded_type, decoded_payload) = decode_payload(&encoded).unwrap();
        assert_eq!(decoded_type, t);
        assert_eq!(decoded_payload, payload);
    }
}

#[test]
fn inverse_on_decoded_buffer() {
    let buf = contract_buffer(&CONTRACT_HASH);
    let (t, p) = decode_payload(&buf).unwrap();
    assert_eq!(encode_payload(t, &p), buf);

    let buf = account_buffer(&ED25519_KEY);
    let (t, p) = decode_payload(&buf).unwrap();
    assert_eq!(encode_payload(t, &p), buf);
}

#[test]
fn unrecognized_outer_tag_is_none() {
    // Outer tag 2 (a muxed-account address, newer than this codec's schema).
    let mut buf = vec![0, 0, 0, 18, 0, 0, 0, 2];
    buf.extend_from_slice(&[0u8; 40]);
    assert_eq!(decode_payload(&buf), None);

    // An outer tag far outside the known range.
    let mut buf = vec![0, 0, 0, 18, 0xff, 0xff, 0xff, 0xff];
    buf.extend_from_slice(&[0u8; 32]);
    assert_eq!(decode_payload(&buf), None);
}

#[test]
fn unrecognized_inner_tag_is_none() {
    // Account shape with a public-key kind other than Ed25519.
    let mut buf = vec![0, 0, 0, 18, 0, 0, 0, 0, 0, 0, 0, 1];
    buf.extend_from_slice(&[0u8; 32]);
    assert_eq!(decode_payload(&buf), None);
}

#[test]
fn truncated_buffer_is_none() {
    assert_eq!(decode_payload(&Vec::new()), None);
    assert_eq!(decode_payload(&vec![0, 0, 0, 18]), None);
    // Contract shape one byte short of a full payload.
    let mut buf = vec![0, 0, 0, 18, 0, 0, 0, 1];
    buf.extend_from_slice(&[0u8; 31]);
    assert_eq!(decode_payload(&buf), None);
    // Account shape one byte short of a full payload.
    let mut buf = vec![0, 0, 0, 18, 0, 0, 0, 0, 0, 0, 0, 0];
    buf.extend_from_slice(&[0u8; 31]);
    assert_eq!(decode_payload(&buf), None);
}
