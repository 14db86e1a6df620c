use curve25519_dalek::constants::{RISTRETTO_BASEPOINT_COMPRESSED, RISTRETTO_BASEPOINT_POINT};
use curve25519_dalek::ristretto::RistrettoPoint;
use curve25519_dalek::scalar::Scalar;
use scs::pedersen::{gen_pedersen_params, pedersen_commitment, PedersenQuery};
use sha3::Sha3_512;

fn second_base() -> RistrettoPoint {
    RistrettoPoint::hash_from_bytes::<Sha3_512>(RISTRETTO_BASEPOINT_COMPRESSED.as_bytes())
}

fn scalar_bytes(low: u8) -> [u8; 32] {
    let mut bytes = [0u8; 32];
    bytes[0] = low;
    bytes
}

#[test]
fn query_value_joins_the_halves() {
    let query = PedersenQuery { query_low: 5, query_high: 0, blinding: [0; 32] };
    assert_eq!(query.value(), 5);
    let query = PedersenQuery { query_low: 0, query_high: 1, blinding: [0; 32] };
    assert_eq!(query.value(), 1u128 << 64);
    let query = PedersenQuery { query_low: u64::MAX, query_high: u64::MAX, blinding: [0; 32] };
    assert_eq!(query.value(), u128::MAX);
    let query = PedersenQuery { query_low: 0x0102, query_high: 0x0304, blinding: [0; 32] };
    assert_eq!(query.value(), 0x0304_0000_0000_0000_0102);
}

#[test]
fn committing_to_nothing_gives_the_identity() {
    let params = gen_pedersen_params();
    let query = PedersenQuery { query_low: 0, query_high: 0, blinding: [0; 32] };
    assert_eq!(pedersen_commitment(&query, &params).serialized, [0u8; 32]);
}

#[test]
fn committing_to_one_unblinded_gives_the_basepoint() {
    let params = gen_pedersen_params();
    let query = PedersenQuery { query_low: 1, query_high: 0, blinding: [0; 32] };
    assert_eq!(
        pedersen_commitment(&query, &params).serialized,
        [
            0xe2, 0xf2, 0xae, 0x0a, 0x6a, 0xbc, 0x4e, 0x71, 0xa8, 0x84, 0xa9, 0x61, 0xc5, 0x00,
            0x51, 0x5f, 0x58, 0xe3, 0x0b, 0x6a, 0xa5, 0x82, 0xdd, 0x8d, 0xb6, 0xa6, 0x59, 0x45,
            0xe0, 0x8d, 0x2d, 0x76,
        ]
    );
}

#[test]
fn blinding_alone_gives_the_second_base() {
    let params = gen_pedersen_params();
    let query = PedersenQuery { query_low: 0, query_high: 0, blinding: scalar_bytes(1) };
    assert_eq!(
        pedersen_commitment(&query, &params).serialized,
        second_base().compress().to_bytes()
    );
}

#[test]
fn commitment_is_value_times_g_plus_blinding_times_h() {
    let params = gen_pedersen_params();
    let blinding = [0xffu8; 32];
    let query = PedersenQuery { query_low: 77, query_high: 3, blinding };
    let value = Scalar::from((3u128 << 64) + 77);
    let blind = Scalar::from_bytes_mod_order(blinding);
    let expected = RISTRETTO_BASEPOINT_POINT * value + second_base() * blind;
    assert_eq!(pedersen_commitment(&query, &params).serialized, expected.compress().to_bytes());
}

#[test]
fn different_values_commit_differently() {
    let params = gen_pedersen_params();
    let one = PedersenQuery { query_low: 1, query_high: 0, blinding: scalar_bytes(9) };
    let two = PedersenQuery { query_low: 2, query_high: 0, blinding: scalar_bytes(9) };
    let high = PedersenQuery { query_low: 0, query_high: 1, blinding: scalar_bytes(9) };
    let a = pedersen_commitment(&one, &params).serialized;
    let b = pedersen_commitment(&two, &params).serialized;
    let c = pedersen_commitment(&high, &params).serialized;
    assert_ne!(a, b);
    assert_ne!(a, c);
    assert_ne!(b, c);
    assert_eq!(a, pedersen_commitment(&one, &gen_pedersen_params()).serialized);
}
