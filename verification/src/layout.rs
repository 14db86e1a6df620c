//! Values with a fixed byte layout: the only values that cross the boundary
//! between a contract and the host.
//!
//! A value is read from and written to a buffer by an explicit encoding, never
//! by reinterpreting memory. Integers are little-endian, as in the linear
//! memory of a WebAssembly module.

use vstd::prelude::*;

verus! {

/// `len` zero bytes.
pub open spec fn zeros(len: nat) -> Seq<u8> {
    Seq::new(len, |i: int| 0u8)
}

/// A buffer of `size` bytes that starts with the first `length` bytes of
/// `source`, as far as `source` has them, and holds zero everywhere else.
pub open spec fn spec_padded(source: Seq<u8>, length: nat, size: nat) -> Seq<u8> {
    Seq::new(
        size,
        |i: int|
            if i < length && i < source.len() {
                source[i]
            } else {
                0u8
            },
    )
}

/// 256 to the power of `n`.
pub open spec fn pow256(n: nat) -> nat
    decreases n,
{
    if n == 0 {
        1
    } else {
        256 * pow256((n - 1) as nat)
    }
}

/// The number that `bytes` spell, the least significant byte first.
pub open spec fn le_value(bytes: Seq<u8>) -> nat
    decreases bytes.len(),
{
    if bytes.len() == 0 {
        0
    } else {
        bytes[0] as nat + 256 * le_value(bytes.drop_first())
    }
}

/// The `len` low bytes of `value`, the least significant byte first.
pub open spec fn le_bytes(value: nat, len: nat) -> Seq<u8>
    decreases len,
{
    if len == 0 {
        Seq::empty()
    } else {
        seq![(value % 256) as u8] + le_bytes(value / 256, (len - 1) as nat)
    }
}

/// The two's complement reading, in `len` bytes, of a number below 256^`len`.
pub open spec fn to_signed(value: nat, len: nat) -> int {
    if 2 * value >= pow256(len) {
        value - pow256(len)
    } else {
        value as int
    }
}

/// The number below 256^`len` whose two's complement reading in `len` bytes is
/// `value`.
pub open spec fn to_unsigned(value: int, len: nat) -> nat {
    if value < 0 {
        (value + pow256(len)) as nat
    } else {
        value as nat
    }
}

/// The powers of 256 that the integer types here need.
pub proof fn lemma_pow256_values()
    ensures
        pow256(0) == 1,
        pow256(1) == 0x100,
        pow256(4) == 0x1_0000_0000,
        pow256(7) == 0x100_0000_0000_0000,
        pow256(8) == 0x1_0000_0000_0000_0000,
{
    reveal_with_fuel(pow256, 9);
}

/// The number that `bytes` spell is below 256 to the power of their count.
pub proof fn lemma_le_value_bound(bytes: Seq<u8>)
    ensures
        le_value(bytes) < pow256(bytes.len()),
    decreases bytes.len(),
{
    if bytes.len() > 0 {
        lemma_le_value_bound(bytes.drop_first());
    }
}

/// `le_bytes` gives as many bytes as it is asked for.
pub proof fn lemma_le_bytes_len(value: nat, len: nat)
    ensures
        le_bytes(value, len).len() == len,
    decreases len,
{
    if len > 0 {
        lemma_le_bytes_len(value / 256, (len - 1) as nat);
    }
}

/// Writing a number that fits in `len` bytes and reading the bytes back gives
/// the number.
pub proof fn lemma_le_value_of_bytes(value: nat, len: nat)
    requires
        value < pow256(len),
    ensures
        le_value(le_bytes(value, len)) == value,
    decreases len,
{
    if len > 0 {
        let rest = le_bytes(value / 256, (len - 1) as nat);
        let all = le_bytes(value, len);
        lemma_le_value_of_bytes(value / 256, (len - 1) as nat);
        assert(all.drop_first() =~= rest);
        assert(all[0] == (value % 256) as u8);
    }
}

/// Reading bytes as a number and writing the number back in as many bytes
/// gives the bytes.
pub proof fn lemma_le_bytes_of_value(bytes: Seq<u8>)
    ensures
        le_bytes(le_value(bytes), bytes.len()) == bytes,
    decreases bytes.len(),
{
    if bytes.len() > 0 {
        let value = le_value(bytes);
        let rest = bytes.drop_first();
        lemma_le_bytes_of_value(rest);
        assert(value % 256 == bytes[0] as nat);
        assert(value / 256 == le_value(rest));
        assert(le_bytes(value, bytes.len()) =~= bytes);
    } else {
        assert(le_bytes(le_value(bytes), 0) =~= bytes);
    }
}

/// Zero bytes spell zero, and zero is written as zero bytes.
pub proof fn lemma_le_zeros(len: nat)
    ensures
        le_value(zeros(len)) == 0,
        le_bytes(0, len) == zeros(len),
    decreases len,
{
    if len > 0 {
        lemma_le_zeros((len - 1) as nat);
        assert(zeros(len).drop_first() =~= zeros((len - 1) as nat));
        assert(le_bytes(0, len) =~= zeros(len));
    } else {
        assert(le_bytes(0, 0) =~= zeros(0));
    }
}

/// The number that at most eight bytes spell, the least significant byte first.
pub fn read_le(bytes: &[u8]) -> (out: u64)
    requires
        bytes@.len() <= 8,
    ensures
        out == le_value(bytes@),
{
    let len = bytes.len();
    let mut out: u64 = 0;
    let mut i: usize = len;
    proof {
        assert(bytes@.subrange(len as int, len as int) =~= Seq::<u8>::empty());
    }
    while i > 0
        invariant
            i <= len,
            len == bytes@.len(),
            len <= 8,
            out == le_value(bytes@.subrange(i as int, len as int)),
        decreases i,
    {
        proof {
            let tail = bytes@.subrange(i as int, len as int);
            let longer = bytes@.subrange(i as int - 1, len as int);
            lemma_le_value_bound(tail);
            lemma_pow256_values();
            lemma_pow256_monotonic(tail.len(), 7);
            assert(longer.drop_first() =~= tail);
            assert(longer[0] == bytes@[i as int - 1]);
        }
        i = i - 1;
        out = out * 256 + bytes[i] as u64;
    }
    proof {
        assert(bytes@.subrange(0, len as int) =~= bytes@);
    }
    out
}

/// 256 to a power is at most 256 to a greater power.
pub proof fn lemma_pow256_monotonic(low: nat, high: nat)
    requires
        low <= high,
    ensures
        0 < pow256(low) <= pow256(high),
    decreases high,
{
    if low < high {
        lemma_pow256_monotonic(low, (high - 1) as nat);
    } else {
        lemma_pow256_positive(low);
    }
}

/// 256 to any power is positive.
pub proof fn lemma_pow256_positive(n: nat)
    ensures
        0 < pow256(n),
    decreases n,
{
    if n > 0 {
        lemma_pow256_positive((n - 1) as nat);
    }
}

/// The `len` low bytes of `value`, the least significant byte first.
pub fn write_le(value: u64, len: usize) -> (out: Vec<u8>)
    ensures
        out@ == le_bytes(value as nat, len as nat),
{
    let mut out: Vec<u8> = Vec::new();
    let mut rest: u64 = value;
    let mut i: usize = 0;
    while i < len
        invariant
            i <= len,
            out@.len() == i,
            le_bytes(value as nat, len as nat) == out@ + le_bytes(rest as nat, (len - i) as nat),
        decreases len - i,
    {
        proof {
            let tail = le_bytes((rest / 256) as nat, (len - i - 1) as nat);
            assert(out@.push((rest % 256) as u8) + tail =~= out@ + (seq![(rest % 256) as u8]
                + tail));
        }
        out.push((rest % 256) as u8);
        rest = rest / 256;
        i = i + 1;
    }
    proof {
        assert(out@ + Seq::<u8>::empty() =~= out@);
    }
    out
}

/// A zero-filled buffer of `N` bytes into which the first `length` bytes of
/// `source` are copied, as far as `source` has them.
pub fn padded<const N: usize>(source: &[u8], length: usize) -> (out: [u8; N])
    requires
        length <= N,
    ensures
        out@ == spec_padded(source@, length as nat, N as nat),
{
    let mut out: [u8; N] = [0u8;N];
    let count: usize = if source.len() < length {
        source.len()
    } else {
        length
    };
    let mut i: usize = 0;
    while i < count
        invariant
            i <= count,
            count <= N,
            count <= source@.len(),
            forall|j: int| 0 <= j < i ==> out@[j] == source@[j],
            forall|j: int| i <= j < N ==> out@[j] == 0u8,
        decreases count - i,
    {
        out[i] = source[i];
        i = i + 1;
    }
    assert(out@ =~= spec_padded(source@, length as nat, N as nat));
    out
}

/// A type whose values have a fixed number of bytes and a fixed encoding in
/// them.
pub trait FixedLayout: Sized {
    /// The number of bytes of every value of the type.
    spec fn spec_size() -> nat;

    /// The bytes of `self`.
    spec fn spec_encode(&self) -> Seq<u8>;

    /// The value that `bytes` hold.
    spec fn spec_decode(bytes: Seq<u8>) -> Self;

    /// A value has as many bytes as its type says, and is read back from them
    /// unchanged.
    proof fn lemma_round_trip(value: Self)
        ensures
            value.spec_encode().len() == Self::spec_size(),
            Self::spec_decode(value.spec_encode()) == value,
    ;

    /// The value that zero bytes hold is written as zero bytes: it is the
    /// all-zero representation of the type.
    proof fn lemma_zero()
        ensures
            Self::spec_decode(zeros(Self::spec_size())).spec_encode() == zeros(Self::spec_size()),
    ;

    /// The number of bytes of every value of the type.
    fn size() -> (out: usize)
        ensures
            out == Self::spec_size(),
    ;

    /// The bytes of `self`.
    fn encode(&self) -> (out: Vec<u8>)
        ensures
            out@ == self.spec_encode(),
    ;

    /// The value that `bytes` hold.
    fn decode(bytes: &[u8]) -> (out: Self)
        requires
            bytes@.len() == Self::spec_size(),
        ensures
            out == Self::spec_decode(bytes@),
    ;
}

impl FixedLayout for () {
    open spec fn spec_size() -> nat {
        0
    }

    open spec fn spec_encode(&self) -> Seq<u8> {
        Seq::empty()
    }

    open spec fn spec_decode(bytes: Seq<u8>) -> Self {
        ()
    }

    proof fn lemma_round_trip(value: Self) {
    }

    proof fn lemma_zero() {
        assert(Seq::<u8>::empty() =~= zeros(0));
    }

    fn size() -> (out: usize) {
        0
    }

    fn encode(&self) -> (out: Vec<u8>) {
        Vec::new()
    }

    fn decode(bytes: &[u8]) -> (out: Self) {
        ()
    }
}

impl FixedLayout for u8 {
    open spec fn spec_size() -> nat {
        1
    }

    open spec fn spec_encode(&self) -> Seq<u8> {
        le_bytes(*self as nat, 1)
    }

    open spec fn spec_decode(bytes: Seq<u8>) -> Self {
        le_value(bytes) as u8
    }

    proof fn lemma_round_trip(value: Self) {
        lemma_pow256_values();
        lemma_le_bytes_len(value as nat, 1);
        lemma_le_value_of_bytes(value as nat, 1);
    }

    proof fn lemma_zero() {
        lemma_le_zeros(1);
    }

    fn size() -> (out: usize) {
        1
    }

    fn encode(&self) -> (out: Vec<u8>) {
        write_le(*self as u64, 1)
    }

    fn decode(bytes: &[u8]) -> (out: Self) {
        proof {
            lemma_le_value_bound(bytes@);
            lemma_pow256_values();
        }
        read_le(bytes) as u8
    }
}

impl FixedLayout for u32 {
    open spec fn spec_size() -> nat {
        4
    }

    open spec fn spec_encode(&self) -> Seq<u8> {
        le_bytes(*self as nat, 4)
    }

    open spec fn spec_decode(bytes: Seq<u8>) -> Self {
        le_value(bytes) as u32
    }

    proof fn lemma_round_trip(value: Self) {
        lemma_pow256_values();
        lemma_le_bytes_len(value as nat, 4);
        lemma_le_value_of_bytes(value as nat, 4);
    }

    proof fn lemma_zero() {
        lemma_le_zeros(4);
    }

    fn size() -> (out: usize) {
        4
    }

    fn encode(&self) -> (out: Vec<u8>) {
        write_le(*self as u64, 4)
    }

    fn decode(bytes: &[u8]) -> (out: Self) {
        proof {
            lemma_le_value_bound(bytes@);
            lemma_pow256_values();
        }
        read_le(bytes) as u32
    }
}

impl FixedLayout for u64 {
    open spec fn spec_size() -> nat {
        8
    }

    open spec fn spec_encode(&self) -> Seq<u8> {
        le_bytes(*self as nat, 8)
    }

    open spec fn spec_decode(bytes: Seq<u8>) -> Self {
        le_value(bytes) as u64
    }

    proof fn lemma_round_trip(value: Self) {
        lemma_pow256_values();
        lemma_le_bytes_len(value as nat, 8);
        lemma_le_value_of_bytes(value as nat, 8);
    }

    proof fn lemma_zero() {
        lemma_le_zeros(8);
    }

    fn size() -> (out: usize) {
        8
    }

    fn encode(&self) -> (out: Vec<u8>) {
        write_le(*self, 8)
    }

    fn decode(bytes: &[u8]) -> (out: Self) {
        read_le(bytes)
    }
}

impl FixedLayout for i32 {
    open spec fn spec_size() -> nat {
        4
    }

    open spec fn spec_encode(&self) -> Seq<u8> {
        le_bytes(to_unsigned(*self as int, 4), 4)
    }

    open spec fn spec_decode(bytes: Seq<u8>) -> Self {
        to_signed(le_value(bytes), 4) as i32
    }

    proof fn lemma_round_trip(value: Self) {
        lemma_pow256_values();
        lemma_le_bytes_len(to_unsigned(value as int, 4), 4);
        lemma_le_value_of_bytes(to_unsigned(value as int, 4), 4);
    }

    proof fn lemma_zero() {
        lemma_pow256_values();
        lemma_le_zeros(4);
    }

    fn size() -> (out: usize) {
        4
    }

    fn encode(&self) -> (out: Vec<u8>) {
        proof {
            lemma_pow256_values();
        }
        let unsigned: u64 = if *self < 0 {
            (*self as i64 + 0x1_0000_0000) as u64
        } else {
            *self as u64
        };
        write_le(unsigned, 4)
    }

    fn decode(bytes: &[u8]) -> (out: Self) {
        proof {
            lemma_le_value_bound(bytes@);
            lemma_pow256_values();
        }
        let unsigned = read_le(bytes);
        if unsigned >= 0x8000_0000 {
            (unsigned as i64 - 0x1_0000_0000) as i32
        } else {
            unsigned as i32
        }
    }
}

impl FixedLayout for i64 {
    open spec fn spec_size() -> nat {
        8
    }

    open spec fn spec_encode(&self) -> Seq<u8> {
        le_bytes(to_unsigned(*self as int, 8), 8)
    }

    open spec fn spec_decode(bytes: Seq<u8>) -> Self {
        to_signed(le_value(bytes), 8) as i64
    }

    proof fn lemma_round_trip(value: Self) {
        lemma_pow256_values();
        lemma_le_bytes_len(to_unsigned(value as int, 8), 8);
        lemma_le_value_of_bytes(to_unsigned(value as int, 8), 8);
    }

    proof fn lemma_zero() {
        lemma_pow256_values();
        lemma_le_zeros(8);
    }

    fn size() -> (out: usize) {
        8
    }

    fn encode(&self) -> (out: Vec<u8>) {
        proof {
            lemma_pow256_values();
        }
        let unsigned: u64 = if *self < 0 {
            (*self as i128 + 0x1_0000_0000_0000_0000) as u64
        } else {
            *self as u64
        };
        write_le(unsigned, 8)
    }

    fn decode(bytes: &[u8]) -> (out: Self) {
        proof {
            lemma_le_value_bound(bytes@);
            lemma_pow256_values();
        }
        let unsigned = read_le(bytes);
        if unsigned >= 0x8000_0000_0000_0000 {
            (unsigned as i128 - 0x1_0000_0000_0000_0000) as i64
        } else {
            unsigned as i64
        }
    }
}

/// Four bytes, read as a 32-bit signed number and written back, are unchanged:
/// every bit of them belongs to the number.
pub proof fn lemma_i32_exact(bytes: Seq<u8>)
    requires
        bytes.len() == 4,
    ensures
        i32::spec_decode(bytes).spec_encode() == bytes,
{
    lemma_pow256_values();
    lemma_le_value_bound(bytes);
    lemma_le_bytes_of_value(bytes);
}

} // verus!
