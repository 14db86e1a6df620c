//! Dispatch identifiers: how a method's name becomes the 4-byte identifier that
//! a caller hands to the host, and the symbol under which the callee exports
//! the method.
//!
//! Both are made from the first four bytes of the SHA-256 digest of the name.
//! The caller's side and the callee's side compute them independently; nothing
//! but this module keeps them in step.

use crate::layout::{lemma_i32_exact, FixedLayout};
use sha2::{Digest, Sha256};
use vstd::prelude::*;
use vstd::string::*;
use vstd::utf8::encode_utf8;

verus! {

/// The SHA-256 digest of `message`.
pub uninterp spec fn sha256_digest(message: Seq<u8>) -> Seq<u8>;

/// The SHA-256 digest of `data`, computed by `sha2::Sha256` (`new`, `update`,
/// `finalize`). Trusted: the result is the digest of exactly the bytes given,
/// and depends on nothing else.
#[verifier::external_body]
fn sha256(data: &[u8]) -> (digest: [u8; 32])
    ensures
        digest@ == sha256_digest(data@),
{
    let mut hasher = Sha256::new();
    hasher.update(data);
    hasher.finalize().into()
}

/// The upper-case hexadecimal digit for a value below 16.
pub open spec fn hex_digit_upper(nibble: int) -> char {
    if nibble < 10 {
        ('0' as int + nibble) as char
    } else {
        ('A' as int + nibble - 10) as char
    }
}

/// The upper-case hexadecimal rendering of `bytes`: two digits for each byte,
/// the high half first, in the order of the bytes.
pub open spec fn hex_upper(bytes: Seq<u8>) -> Seq<char> {
    Seq::new(
        2 * bytes.len(),
        |i: int|
            if i % 2 == 0 {
                hex_digit_upper(bytes[i / 2] as int / 16)
            } else {
                hex_digit_upper(bytes[i / 2] as int % 16)
            },
    )
}

/// The upper-case hexadecimal rendering of `data`, made by `hex::encode_upper`.
/// Trusted: each byte becomes two characters out of `0123456789ABCDEF`, the
/// one for its high four bits, then the one for its low four bits.
#[verifier::external_body]
fn hex_encode_upper(data: &[u8]) -> (text: String)
    ensures
        text@ == hex_upper(data@),
{
    hex::encode_upper(data)
}

/// The first four elements of `bytes`.
pub open spec fn prefix4(bytes: Seq<u8>) -> Seq<u8> {
    seq![bytes[0], bytes[1], bytes[2], bytes[3]]
}

/// The prefix that every exported entry point's symbol starts with.
pub open spec fn export_prefix() -> Seq<char> {
    seq!['p', 'u', 'b']
}

/// The dispatch identifier of the method called `name`: the first four bytes
/// of the SHA-256 digest of the name's UTF-8 bytes, read as a little-endian
/// signed number.
pub open spec fn spec_method_id(name: Seq<char>) -> i32 {
    i32::spec_decode(prefix4(sha256_digest(encode_utf8(name))))
}

/// The symbol under which the method called `name` is exported: `pub`, then the
/// first four bytes of the SHA-256 digest of the name's UTF-8 bytes as eight
/// upper-case hexadecimal digits.
pub open spec fn spec_export_symbol(name: Seq<char>) -> Seq<char> {
    export_prefix() + hex_upper(prefix4(sha256_digest(encode_utf8(name))))
}

/// The symbol that belongs to a dispatch identifier.
pub open spec fn spec_symbol_of_id(id: i32) -> Seq<char> {
    export_prefix() + hex_upper(id.spec_encode())
}

/// The first four bytes of `buf`.
pub fn copy_slice(buf: &[u8]) -> (out: [u8; 4])
    requires
        buf@.len() >= 4,
    ensures
        out@ == prefix4(buf@),
{
    let mut out: [u8; 4] = [0u8;4];
    out[0] = buf[0];
    out[1] = buf[1];
    out[2] = buf[2];
    out[3] = buf[3];
    assert(out@ =~= prefix4(buf@));
    out
}

/// The dispatch identifier of the method called `name`.
pub fn method_id(name: &str) -> (out: i32)
    ensures
        out == spec_method_id(name@),
{
    let digest = sha256(name.as_bytes());
    let buf = copy_slice(digest.as_slice());
    i32::decode(buf.as_slice())
}

/// The symbol under which the method called `name` is exported.
pub fn export_symbol(name: &str) -> (out: String)
    ensures
        out@ == spec_export_symbol(name@),
{
    let digest = sha256(name.as_bytes());
    let prefix = copy_slice(digest.as_slice());
    let hex = hex_encode_upper(prefix.as_slice());
    let mut out = String::from_str("pub");
    out.append(hex.as_str());
    proof {
        reveal_strlit("pub");
        assert("pub"@ =~= export_prefix());
    }
    out
}

/// The exported symbol of a method is the symbol that belongs to its dispatch
/// identifier: the callee, which derives the symbol from the name, and the
/// caller, which derives the identifier from the name, agree.
pub proof fn lemma_symbol_matches_id(name: Seq<char>)
    ensures
        spec_export_symbol(name) == spec_symbol_of_id(spec_method_id(name)),
{
    lemma_i32_exact(prefix4(sha256_digest(encode_utf8(name))));
}

/// Two sequences of bytes of one length have the same hexadecimal rendering
/// only if they are equal.
pub proof fn lemma_hex_upper_injective(a: Seq<u8>, b: Seq<u8>)
    requires
        a.len() == b.len(),
        hex_upper(a) == hex_upper(b),
    ensures
        a == b,
{
    assert forall|i: int| 0 <= i < a.len() implies a[i] == b[i] by {
        let high = hex_upper(a)[2 * i];
        let low = hex_upper(a)[2 * i + 1];
        assert(high == hex_upper(b)[2 * i]);
        assert(low == hex_upper(b)[2 * i + 1]);
        assert((2 * i) / 2 == i && (2 * i) % 2 == 0);
        assert((2 * i + 1) / 2 == i && (2 * i + 1) % 2 == 1);
        assert(a[i] as int / 16 == b[i] as int / 16);
        assert(a[i] as int % 16 == b[i] as int % 16);
    }
    assert(a =~= b);
}

/// Two method names have the same dispatch identifier exactly when they have
/// the same exported symbol. Two different names may share both: the
/// identifier keeps 32 bits of the digest, and nothing here detects or resolves
/// such a collision.
pub proof fn lemma_ids_collide_with_symbols(first: Seq<char>, second: Seq<char>)
    ensures
        spec_method_id(first) == spec_method_id(second) <==> spec_export_symbol(first)
            == spec_export_symbol(second),
{
    let a = prefix4(sha256_digest(encode_utf8(first)));
    let b = prefix4(sha256_digest(encode_utf8(second)));
    lemma_symbol_matches_id(first);
    lemma_symbol_matches_id(second);
    if spec_export_symbol(first) == spec_export_symbol(second) {
        let sa = hex_upper(a);
        let sb = hex_upper(b);
        assert(sa =~= spec_export_symbol(first).subrange(3, 11));
        assert(sb =~= spec_export_symbol(second).subrange(3, 11));
        lemma_hex_upper_injective(a, b);
    }
}

} // verus!
