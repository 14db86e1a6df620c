//! Pedersen commitments over the Ristretto group, for callers in another
//! language.
//!
//! A commitment to a 128-bit value `v` with the blinding scalar `r` is the point
//! `v * G + r * H`, where `G` is the Ristretto basepoint and `H` a second point
//! whose discrete logarithm with respect to `G` nobody knows. The arithmetic of
//! the group is `curve25519_dalek`'s; nothing is proved of it here.

use curve25519_dalek::constants::{RISTRETTO_BASEPOINT_COMPRESSED, RISTRETTO_BASEPOINT_POINT};
use curve25519_dalek::ristretto::RistrettoPoint;
use curve25519_dalek::scalar::Scalar;
use curve25519_dalek::traits::MultiscalarMul;
use sha3::Sha3_512;
use vstd::prelude::*;

verus! {

/// A point of the Ristretto group, `curve25519_dalek::ristretto::RistrettoPoint`.
#[verifier::external_type_specification]
#[verifier::external_body]
pub struct ExRistrettoPoint(curve25519_dalek::ristretto::RistrettoPoint);

/// A scalar of the Ristretto group, `curve25519_dalek::scalar::Scalar`.
#[verifier::external_type_specification]
#[verifier::external_body]
pub struct ExScalar(curve25519_dalek::scalar::Scalar);

/// The 32 bytes of `curve25519_dalek`'s constant `RISTRETTO_BASEPOINT_COMPRESSED`:
/// the encoding of the basepoint. Trusted: the bytes are those that the
/// constant's definition lists.
#[verifier::external_body]
fn basepoint_compressed() -> (out: [u8; 32])
    ensures
        out@ == spec_basepoint_compressed(),
{
    RISTRETTO_BASEPOINT_COMPRESSED.to_bytes()
}

/// `curve25519_dalek`'s constant `RISTRETTO_BASEPOINT_POINT`: the basepoint.
#[verifier::external_body]
fn basepoint() -> RistrettoPoint {
    RISTRETTO_BASEPOINT_POINT
}

/// The point that `RistrettoPoint::hash_from_bytes`, with SHA3-512 as its
/// hash, makes of `input`.
#[verifier::external_body]
fn hash_to_point(input: &[u8]) -> RistrettoPoint {
    RistrettoPoint::hash_from_bytes::<Sha3_512>(input)
}

/// The scalar that `Scalar::from_bytes_mod_order` makes of `bytes`.
#[verifier::external_body]
fn scalar_from_bytes_mod_order(bytes: [u8; 32]) -> Scalar {
    Scalar::from_bytes_mod_order(bytes)
}

/// The scalar that `Scalar::from` makes of a 128-bit number.
#[verifier::external_body]
fn scalar_from_u128(value: u128) -> Scalar {
    Scalar::from(value)
}

/// The point `a * p + b * q`, computed by `RistrettoPoint::multiscalar_mul`.
#[verifier::external_body]
fn multiscalar_mul(a: &Scalar, p: &RistrettoPoint, b: &Scalar, q: &RistrettoPoint) -> RistrettoPoint {
    RistrettoPoint::multiscalar_mul(&[*a, *b], &[*p, *q])
}

/// The 32 bytes that `RistrettoPoint::compress` encodes `point` in.
#[verifier::external_body]
fn compress(point: &RistrettoPoint) -> [u8; 32] {
    point.compress().to_bytes()
}

/// The encoding of the Ristretto basepoint.
pub open spec fn spec_basepoint_compressed() -> Seq<u8> {
    seq![
        0xe2u8, 0xf2, 0xae, 0x0a, 0x6a, 0xbc, 0x4e, 0x71, 0xa8, 0x84, 0xa9, 0x61, 0xc5, 0x00, 0x51,
        0x5f, 0x58, 0xe3, 0x0b, 0x6a, 0xa5, 0x82, 0xdd, 0x8d, 0xb6, 0xa6, 0x59, 0x45, 0xe0, 0x8d,
        0x2d, 0x76,
    ]
}

/// What to commit to: a 128-bit value in two halves, and the 32 bytes that the
/// blinding scalar is made of.
///
/// The value travels in halves because a 128-bit integer is not laid out alike
/// on both sides of a boundary between C and Rust.
#[derive(Clone, Copy, Debug)]
pub struct PedersenQuery {
    pub query_low: u64,
    pub query_high: u64,
    pub blinding: [u8; 32],
}

/// The parameters of the commitment: the second point, `H`.
pub struct PedersenParams {
    blinding_factor: RistrettoPoint,
}

/// A commitment: the 32 bytes of the encoded point.
#[derive(Clone, Copy, Debug)]
pub struct PedersenResponse {
    pub serialized: [u8; 32],
}

impl PedersenQuery {
    /// The value that the two halves spell.
    pub open spec fn spec_value(&self) -> int {
        self.query_high * 0x1_0000_0000_0000_0000 + self.query_low
    }

    /// The value that the two halves spell.
    pub fn value(&self) -> (out: u128)
        ensures
            out == self.spec_value(),
    {
        (self.query_high as u128) * 0x1_0000_0000_0000_0000 + (self.query_low as u128)
    }
}

/// The commitment to the value of `query`, blinded by the scalar that the
/// query's 32 bytes give when reduced modulo the order of the group.
pub fn pedersen_commitment(query: &PedersenQuery, params: &PedersenParams) -> PedersenResponse {
    let blind = scalar_from_bytes_mod_order(query.blinding);
    let value = scalar_from_u128(query.value());
    let base = basepoint();
    let out = multiscalar_mul(&value, &base, &blind, &params.blinding_factor);
    PedersenResponse { serialized: compress(&out) }
}

/// The parameters: `H` is the point that the encoding of the basepoint hashes
/// to.
pub fn gen_pedersen_params() -> PedersenParams {
    let encoded = basepoint_compressed();
    PedersenParams { blinding_factor: hash_to_point(encoded.as_slice()) }
}

} // verus!
