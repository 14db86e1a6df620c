//! Plain fixed-size values that cross the host/guest boundary.

use crate::layout::{padded, spec_padded, zeros, FixedLayout};
use vstd::array::spec_array_fill_for_copy_type;
use vstd::prelude::*;
use vstd::slice::slice_to_vec;

verus! {

/// Identifies a contract: 32 opaque bytes.
///
/// No value is rejected; the all-zero address is an address like any other.
#[derive(Clone, Copy, Debug)]
pub struct Address {
    data: [u8; 32],
}

impl View for Address {
    type V = Seq<u8>;

    closed spec fn view(&self) -> Seq<u8> {
        self.data@
    }
}

impl Address {
    /// The all-zero address.
    pub fn new() -> (out: Self)
        ensures
            out@ == zeros(32),
    {
        let out = Self { data: [0u8;32] };
        assert(out.data@ =~= zeros(32));
        out
    }

    /// The address made of the given bytes.
    pub fn from_bytes(data: [u8; 32]) -> (out: Self)
        ensures
            out@ == data@,
    {
        Self { data }
    }

    /// The 32 bytes of the address.
    pub fn as_bytes(&self) -> (out: &[u8; 32])
        ensures
            out@ == self@,
    {
        &self.data
    }

    /// An address has 32 bytes, and two addresses with the same bytes are one
    /// address.
    pub proof fn lemma_view(self, other: Address)
        ensures
            self@.len() == 32,
            self@ == other@ ==> self == other,
    {
        if self@ == other@ {
            assert(self.data =~= other.data);
        }
    }
}

impl FixedLayout for Address {
    open spec fn spec_size() -> nat {
        32
    }

    open spec fn spec_encode(&self) -> Seq<u8> {
        self@
    }

    open spec fn spec_decode(bytes: Seq<u8>) -> Self {
        choose|address: Address| address@ == bytes
    }

    proof fn lemma_round_trip(value: Self) {
        let back = Self::spec_decode(value@);
        value.lemma_view(back);
    }

    proof fn lemma_zero() {
        let zero = Address { data: spec_array_fill_for_copy_type::<u8, 32>(0u8) };
        assert(zero@ =~= zeros(32));
    }

    fn size() -> (out: usize) {
        32
    }

    fn encode(&self) -> (out: Vec<u8>) {
        slice_to_vec(self.data.as_slice())
    }

    fn decode(bytes: &[u8]) -> (out: Self) {
        let out = Address { data: padded::<32>(bytes, 32) };
        assert(out@ =~= bytes@);
        proof {
            out.lemma_view(Self::spec_decode(bytes@));
        }
        out
    }
}

/// A string of at most `SZ` bytes in a buffer of exactly `SZ` bytes, padded
/// with zero bytes at its end.
pub struct FixedLenString<const SZ: usize> {
    data: [u8; SZ],
}

impl<const SZ: usize> View for FixedLenString<SZ> {
    type V = Seq<u8>;

    closed spec fn view(&self) -> Seq<u8> {
        self.data@
    }
}

impl<const SZ: usize> FixedLenString<SZ> {
    /// Whether a string of `len` bytes fits.
    pub fn fits(len: usize) -> (out: bool)
        ensures
            out == (len <= SZ),
    {
        len <= SZ
    }

    /// The string `from`, followed by zero bytes up to `SZ` bytes.
    ///
    /// A contract that is given a longer string traps before it gets here.
    pub fn new(from: &[u8]) -> (out: Self)
        requires
            from@.len() <= SZ,
        ensures
            out@ == spec_padded(from@, from@.len(), SZ as nat),
    {
        Self { data: padded::<SZ>(from, from.len()) }
    }

    /// The `SZ` bytes of the buffer.
    pub fn as_bytes(&self) -> (out: &[u8; SZ])
        ensures
            out@ == self@,
    {
        &self.data
    }
}

} // verus!
