//! WebAssembly instructions as the cost model sees them, and how they are
//! read from the binary encoding of an instruction.

use vstd::prelude::*;

verus! {

/// A WebAssembly instruction, reduced to what its cost depends on: which
/// instruction it is and, for a branch table, how many targets the table has.
#[derive(Clone, Copy, PartialEq, Eq, Debug)]
pub enum Opcode {
    // Control flow.
    Unreachable,
    Nop,
    Block,
    Loop,
    If,
    Else,
    End,
    Br,
    BrIf,
    /// A branch table; `targets` is the number of entries in its table, the
    /// default target not counted.
    BrTable { targets: usize },
    Return,
    Call,
    CallIndirect,
    // Parametric instructions.
    Drop,
    Select,
    // Access to locals and globals.
    GetLocal,
    SetLocal,
    TeeLocal,
    GetGlobal,
    SetGlobal,
    // Loads from linear memory.
    I32Load,
    I64Load,
    F32Load,
    F64Load,
    I32Load8S,
    I32Load8U,
    I32Load16S,
    I32Load16U,
    I64Load8S,
    I64Load8U,
    I64Load16S,
    I64Load16U,
    I64Load32S,
    I64Load32U,
    // Stores to linear memory.
    I32Store,
    I64Store,
    F32Store,
    F64Store,
    I32Store8,
    I32Store16,
    I64Store8,
    I64Store16,
    I64Store32,
    // Size and growth of linear memory.
    CurrentMemory,
    GrowMemory,
    // Constants.
    I32Const,
    I64Const,
    F32Const,
    F64Const,
    // Integer comparisons.
    I32Eqz,
    I32Eq,
    I32Ne,
    I32LtS,
    I32LtU,
    I32GtS,
    I32GtU,
    I32LeS,
    I32LeU,
    I32GeS,
    I32GeU,
    I64Eqz,
    I64Eq,
    I64Ne,
    I64LtS,
    I64LtU,
    I64GtS,
    I64GtU,
    I64LeS,
    I64LeU,
    I64GeS,
    I64GeU,
    // Floating-point comparisons.
    F32Eq,
    F32Ne,
    F32Lt,
    F32Gt,
    F32Le,
    F32Ge,
    F64Eq,
    F64Ne,
    F64Lt,
    F64Gt,
    F64Le,
    F64Ge,
    // Integer arithmetic and bitwise operations.
    I32Clz,
    I32Ctz,
    I32Popcnt,
    I32Add,
    I32Sub,
    I32Mul,
    I32DivS,
    I32DivU,
    I32RemS,
    I32RemU,
    I32And,
    I32Or,
    I32Xor,
    I32Shl,
    I32ShrS,
    I32ShrU,
    I32Rotl,
    I32Rotr,
    I64Clz,
    I64Ctz,
    I64Popcnt,
    I64Add,
    I64Sub,
    I64Mul,
    I64DivS,
    I64DivU,
    I64RemS,
    I64RemU,
    I64And,
    I64Or,
    I64Xor,
    I64Shl,
    I64ShrS,
    I64ShrU,
    I64Rotl,
    I64Rotr,
    // Floating-point arithmetic.
    F32Abs,
    F32Neg,
    F32Ceil,
    F32Floor,
    F32Trunc,
    F32Nearest,
    F32Sqrt,
    F32Add,
    F32Sub,
    F32Mul,
    F32Div,
    F32Min,
    F32Max,
    F32Copysign,
    F64Abs,
    F64Neg,
    F64Ceil,
    F64Floor,
    F64Trunc,
    F64Nearest,
    F64Sqrt,
    F64Add,
    F64Sub,
    F64Mul,
    F64Div,
    F64Min,
    F64Max,
    F64Copysign,
    // Conversions.
    I32WrapI64,
    I32TruncSF32,
    I32TruncUF32,
    I32TruncSF64,
    I32TruncUF64,
    I64ExtendSI32,
    I64ExtendUI32,
    I64TruncSF32,
    I64TruncUF32,
    I64TruncSF64,
    I64TruncUF64,
    F32ConvertSI32,
    F32ConvertUI32,
    F32ConvertSI64,
    F32ConvertUI64,
    F32DemoteF64,
    F64ConvertSI32,
    F64ConvertUI32,
    F64ConvertSI64,
    F64ConvertUI64,
    F64PromoteF32,
    // Reinterpretations.
    I32ReinterpretF32,
    I64ReinterpretF64,
    F32ReinterpretI32,
    F64ReinterpretI64,
}

/// The largest number of bytes that encode an unsigned 32-bit number.
pub const MAX_VARUINT32_LEN: usize = 5;

/// 128 to the power of `n`.
pub open spec fn pow128(n: nat) -> nat
    decreases n,
{
    if n == 0 {
        1
    } else {
        128 * pow128((n - 1) as nat)
    }
}

/// The number that the bytes of `bytes` from position `at` on spell in the
/// variable-length encoding of unsigned numbers (LEB128), read from at most
/// `limit` bytes: each byte gives seven bits, the least significant first, and
/// all bytes but the last have their high bit set. `None` where the bytes end,
/// or `limit` bytes are read, before a byte without the high bit.
pub open spec fn spec_varuint(bytes: Seq<u8>, at: int, limit: nat) -> Option<nat>
    decreases limit,
{
    if limit == 0 || at < 0 || at >= bytes.len() {
        None
    } else if bytes[at] < 128 {
        Some(bytes[at] as nat)
    } else {
        match spec_varuint(bytes, at + 1, (limit - 1) as nat) {
            Some(rest) => Some((bytes[at] - 128) as nat + 128 * rest),
            None => None,
        }
    }
}

/// The unsigned 32-bit number encoded from position `at` on, or `None` where
/// there is none: the encoding is cut short, runs over five bytes, or spells
/// a number that does not fit in 32 bits.
pub open spec fn spec_varuint32(bytes: Seq<u8>, at: int) -> Option<u32> {
    match spec_varuint(bytes, at, MAX_VARUINT32_LEN as nat) {
        Some(value) => if value <= u32::MAX {
            Some(value as u32)
        } else {
            None
        },
        None => None,
    }
}

/// The instruction that `encoding` starts with, or `None` where it starts with
/// none that is known: the first byte is the instruction's opcode, and a branch
/// table's opcode is followed by the number of its targets.
pub open spec fn spec_decode(encoding: Seq<u8>) -> Option<Opcode> {
    if encoding.len() == 0 {
        None
    } else {
        match encoding[0] {
            0x00 => Some(Opcode::Unreachable),
            0x01 => Some(Opcode::Nop),
            0x02 => Some(Opcode::Block),
            0x03 => Some(Opcode::Loop),
            0x04 => Some(Opcode::If),
            0x05 => Some(Opcode::Else),
            0x0b => Some(Opcode::End),
            0x0c => Some(Opcode::Br),
            0x0d => Some(Opcode::BrIf),
            0x0e => match spec_varuint32(encoding, 1) {
                Some(targets) => Some(Opcode::BrTable { targets: targets as usize }),
                None => None,
            },
            0x0f => Some(Opcode::Return),
            0x10 => Some(Opcode::Call),
            0x11 => Some(Opcode::CallIndirect),
            0x1a => Some(Opcode::Drop),
            0x1b => Some(Opcode::Select),
            0x20 => Some(Opcode::GetLocal),
            0x21 => Some(Opcode::SetLocal),
            0x22 => Some(Opcode::TeeLocal),
            0x23 => Some(Opcode::GetGlobal),
            0x24 => Some(Opcode::SetGlobal),
            0x28 => Some(Opcode::I32Load),
            0x29 => Some(Opcode::I64Load),
            0x2a => Some(Opcode::F32Load),
            0x2b => Some(Opcode::F64Load),
            0x2c => Some(Opcode::I32Load8S),
            0x2d => Some(Opcode::I32Load8U),
            0x2e => Some(Opcode::I32Load16S),
            0x2f => Some(Opcode::I32Load16U),
            0x30 => Some(Opcode::I64Load8S),
            0x31 => Some(Opcode::I64Load8U),
            0x32 => Some(Opcode::I64Load16S),
            0x33 => Some(Opcode::I64Load16U),
            0x34 => Some(Opcode::I64Load32S),
            0x35 => Some(Opcode::I64Load32U),
            0x36 => Some(Opcode::I32Store),
            0x37 => Some(Opcode::I64Store),
            0x38 => Some(Opcode::F32Store),
            0x39 => Some(Opcode::F64Store),
            0x3a => Some(Opcode::I32Store8),
            0x3b => Some(Opcode::I32Store16),
            0x3c => Some(Opcode::I64Store8),
            0x3d => Some(Opcode::I64Store16),
            0x3e => Some(Opcode::I64Store32),
            0x3f => Some(Opcode::CurrentMemory),
            0x40 => Some(Opcode::GrowMemory),
            0x41 => Some(Opcode::I32Const),
            0x42 => Some(Opcode::I64Const),
            0x43 => Some(Opcode::F32Const),
            0x44 => Some(Opcode::F64Const),
            0x45 => Some(Opcode::I32Eqz),
            0x46 => Some(Opcode::I32Eq),
            0x47 => Some(Opcode::I32Ne),
            0x48 => Some(Opcode::I32LtS),
            0x49 => Some(Opcode::I32LtU),
            0x4a => Some(Opcode::I32GtS),
            0x4b => Some(Opcode::I32GtU),
            0x4c => Some(Opcode::I32LeS),
            0x4d => Some(Opcode::I32LeU),
            0x4e => Some(Opcode::I32GeS),
            0x4f => Some(Opcode::I32GeU),
            0x50 => Some(Opcode::I64Eqz),
            0x51 => Some(Opcode::I64Eq),
            0x52 => Some(Opcode::I64Ne),
            0x53 => Some(Opcode::I64LtS),
            0x54 => Some(Opcode::I64LtU),
            0x55 => Some(Opcode::I64GtS),
            0x56 => Some(Opcode::I64GtU),
            0x57 => Some(Opcode::I64LeS),
            0x58 => Some(Opcode::I64LeU),
            0x59 => Some(Opcode::I64GeS),
            0x5a => Some(Opcode::I64GeU),
            0x5b => Some(Opcode::F32Eq),
            0x5c => Some(Opcode::F32Ne),
            0x5d => Some(Opcode::F32Lt),
            0x5e => Some(Opcode::F32Gt),
            0x5f => Some(Opcode::F32Le),
            0x60 => Some(Opcode::F32Ge),
            0x61 => Some(Opcode::F64Eq),
            0x62 => Some(Opcode::F64Ne),
            0x63 => Some(Opcode::F64Lt),
            0x64 => Some(Opcode::F64Gt),
            0x65 => Some(Opcode::F64Le),
            0x66 => Some(Opcode::F64Ge),
            0x67 => Some(Opcode::I32Clz),
            0x68 => Some(Opcode::I32Ctz),
            0x69 => Some(Opcode::I32Popcnt),
            0x6a => Some(Opcode::I32Add),
            0x6b => Some(Opcode::I32Sub),
            0x6c => Some(Opcode::I32Mul),
            0x6d => Some(Opcode::I32DivS),
            0x6e => Some(Opcode::I32DivU),
            0x6f => Some(Opcode::I32RemS),
            0x70 => Some(Opcode::I32RemU),
            0x71 => Some(Opcode::I32And),
            0x72 => Some(Opcode::I32Or),
            0x73 => Some(Opcode::I32Xor),
            0x74 => Some(Opcode::I32Shl),
            0x75 => Some(Opcode::I32ShrS),
            0x76 => Some(Opcode::I32ShrU),
            0x77 => Some(Opcode::I32Rotl),
            0x78 => Some(Opcode::I32Rotr),
            0x79 => Some(Opcode::I64Clz),
            0x7a => Some(Opcode::I64Ctz),
            0x7b => Some(Opcode::I64Popcnt),
            0x7c => Some(Opcode::I64Add),
            0x7d => Some(Opcode::I64Sub),
            0x7e => Some(Opcode::I64Mul),
            0x7f => Some(Opcode::I64DivS),
            0x80 => Some(Opcode::I64DivU),
            0x81 => Some(Opcode::I64RemS),
            0x82 => Some(Opcode::I64RemU),
            0x83 => Some(Opcode::I64And),
            0x84 => Some(Opcode::I64Or),
            0x85 => Some(Opcode::I64Xor),
            0x86 => Some(Opcode::I64Shl),
            0x87 => Some(Opcode::I64ShrS),
            0x88 => Some(Opcode::I64ShrU),
            0x89 => Some(Opcode::I64Rotl),
            0x8a => Some(Opcode::I64Rotr),
            0x8b => Some(Opcode::F32Abs),
            0x8c => Some(Opcode::F32Neg),
            0x8d => Some(Opcode::F32Ceil),
            0x8e => Some(Opcode::F32Floor),
            0x8f => Some(Opcode::F32Trunc),
            0x90 => Some(Opcode::F32Nearest),
            0x91 => Some(Opcode::F32Sqrt),
            0x92 => Some(Opcode::F32Add),
            0x93 => Some(Opcode::F32Sub),
            0x94 => Some(Opcode::F32Mul),
            0x95 => Some(Opcode::F32Div),
            0x96 => Some(Opcode::F32Min),
            0x97 => Some(Opcode::F32Max),
            0x98 => Some(Opcode::F32Copysign),
            0x99 => Some(Opcode::F64Abs),
            0x9a => Some(Opcode::F64Neg),
            0x9b => Some(Opcode::F64Ceil),
            0x9c => Some(Opcode::F64Floor),
            0x9d => Some(Opcode::F64Trunc),
            0x9e => Some(Opcode::F64Nearest),
            0x9f => Some(Opcode::F64Sqrt),
            0xa0 => Some(Opcode::F64Add),
            0xa1 => Some(Opcode::F64Sub),
            0xa2 => Some(Opcode::F64Mul),
            0xa3 => Some(Opcode::F64Div),
            0xa4 => Some(Opcode::F64Min),
            0xa5 => Some(Opcode::F64Max),
            0xa6 => Some(Opcode::F64Copysign),
            0xa7 => Some(Opcode::I32WrapI64),
            0xa8 => Some(Opcode::I32TruncSF32),
            0xa9 => Some(Opcode::I32TruncUF32),
            0xaa => Some(Opcode::I32TruncSF64),
            0xab => Some(Opcode::I32TruncUF64),
            0xac => Some(Opcode::I64ExtendSI32),
            0xad => Some(Opcode::I64ExtendUI32),
            0xae => Some(Opcode::I64TruncSF32),
            0xaf => Some(Opcode::I64TruncUF32),
            0xb0 => Some(Opcode::I64TruncSF64),
            0xb1 => Some(Opcode::I64TruncUF64),
            0xb2 => Some(Opcode::F32ConvertSI32),
            0xb3 => Some(Opcode::F32ConvertUI32),
            0xb4 => Some(Opcode::F32ConvertSI64),
            0xb5 => Some(Opcode::F32ConvertUI64),
            0xb6 => Some(Opcode::F32DemoteF64),
            0xb7 => Some(Opcode::F64ConvertSI32),
            0xb8 => Some(Opcode::F64ConvertUI32),
            0xb9 => Some(Opcode::F64ConvertSI64),
            0xba => Some(Opcode::F64ConvertUI64),
            0xbb => Some(Opcode::F64PromoteF32),
            0xbc => Some(Opcode::I32ReinterpretF32),
            0xbd => Some(Opcode::I64ReinterpretF64),
            0xbe => Some(Opcode::F32ReinterpretI32),
            0xbf => Some(Opcode::F64ReinterpretI64),
            _ => None,
        }
    }
}

/// A number read from at most `limit` bytes is below 128 to the power of
/// `limit`.
pub proof fn lemma_varuint_bound(bytes: Seq<u8>, at: int, limit: nat)
    ensures
        spec_varuint(bytes, at, limit) matches Some(value) ==> value < pow128(limit),
    decreases limit,
{
    if limit > 0 && 0 <= at < bytes.len() {
        lemma_pow128_monotonic(0, (limit - 1) as nat);
        if bytes[at] >= 128 {
            lemma_varuint_bound(bytes, at + 1, (limit - 1) as nat);
        }
    }
}

/// The number encoded from position `at` on, read from at most `limit` bytes.
fn read_varuint(bytes: &[u8], at: usize, limit: usize) -> (out: Option<u64>)
    requires
        limit <= 5,
    ensures
        out is Some <==> spec_varuint(bytes@, at as int, limit as nat) is Some,
        out is Some ==> out->0 == spec_varuint(bytes@, at as int, limit as nat)->0,
    decreases limit,
{
    if limit == 0 || at >= bytes.len() {
        return None;
    }
    let byte = bytes[at];
    if byte < 128 {
        Some(byte as u64)
    } else {
        match read_varuint(bytes, at + 1, limit - 1) {
            Some(rest) => {
                proof {
                    lemma_varuint_bound(bytes@, at + 1, (limit - 1) as nat);
                    reveal_with_fuel(pow128, 6);
                    lemma_pow128_monotonic((limit - 1) as nat, 4);
                }
                Some((byte - 128) as u64 + 128 * rest)
            },
            None => None,
        }
    }
}

/// 128 to a power is at most 128 to a greater power.
pub proof fn lemma_pow128_monotonic(low: nat, high: nat)
    requires
        low <= high,
    ensures
        0 < pow128(low) <= pow128(high),
    decreases high,
{
    if low < high {
        lemma_pow128_monotonic(low, (high - 1) as nat);
    } else if low > 0 {
        lemma_pow128_monotonic((low - 1) as nat, (low - 1) as nat);
    }
}

/// The unsigned 32-bit number encoded from position `at` on.
pub fn read_varuint32(bytes: &[u8], at: usize) -> (out: Option<u32>)
    ensures
        out == spec_varuint32(bytes@, at as int),
{
    match read_varuint(bytes, at, MAX_VARUINT32_LEN) {
        Some(value) => if value <= 0xffff_ffff {
            Some(value as u32)
        } else {
            None
        },
        None => None,
    }
}

impl Opcode {
    /// The instruction that `encoding` starts with, or `None` where it starts
    /// with none that is known.
    pub fn decode(encoding: &[u8]) -> (out: Option<Opcode>)
        ensures
            out == spec_decode(encoding@),
    {
        if encoding.len() == 0 {
            return None;
        }
        match encoding[0] {
            0x00 => Some(Opcode::Unreachable),
            0x01 => Some(Opcode::Nop),
            0x02 => Some(Opcode::Block),
            0x03 => Some(Opcode::Loop),
            0x04 => Some(Opcode::If),
            0x05 => Some(Opcode::Else),
            0x0b => Some(Opcode::End),
            0x0c => Some(Opcode::Br),
            0x0d => Some(Opcode::BrIf),
            0x0e => match read_varuint32(encoding, 1) {
                Some(targets) => Some(Opcode::BrTable { targets: targets as usize }),
                None => None,
            },
            0x0f => Some(Opcode::Return),
            0x10 => Some(Opcode::Call),
            0x11 => Some(Opcode::CallIndirect),
            0x1a => Some(Opcode::Drop),
            0x1b => Some(Opcode::Select),
            0x20 => Some(Opcode::GetLocal),
            0x21 => Some(Opcode::SetLocal),
            0x22 => Some(Opcode::TeeLocal),
            0x23 => Some(Opcode::GetGlobal),
            0x24 => Some(Opcode::SetGlobal),
            0x28 => Some(Opcode::I32Load),
            0x29 => Some(Opcode::I64Load),
            0x2a => Some(Opcode::F32Load),
            0x2b => Some(Opcode::F64Load),
            0x2c => Some(Opcode::I32Load8S),
            0x2d => Some(Opcode::I32Load8U),
            0x2e => Some(Opcode::I32Load16S),
            0x2f => Some(Opcode::I32Load16U),
            0x30 => Some(Opcode::I64Load8S),
            0x31 => Some(Opcode::I64Load8U),
            0x32 => Some(Opcode::I64Load16S),
            0x33 => Some(Opcode::I64Load16U),
            0x34 => Some(Opcode::I64Load32S),
            0x35 => Some(Opcode::I64Load32U),
            0x36 => Some(Opcode::I32Store),
            0x37 => Some(Opcode::I64Store),
            0x38 => Some(Opcode::F32Store),
            0x39 => Some(Opcode::F64Store),
            0x3a => Some(Opcode::I32Store8),
            0x3b => Some(Opcode::I32Store16),
            0x3c => Some(Opcode::I64Store8),
            0x3d => Some(Opcode::I64Store16),
            0x3e => Some(Opcode::I64Store32),
            0x3f => Some(Opcode::CurrentMemory),
            0x40 => Some(Opcode::GrowMemory),
            0x41 => Some(Opcode::I32Const),
            0x42 => Some(Opcode::I64Const),
            0x43 => Some(Opcode::F32Const),
            0x44 => Some(Opcode::F64Const),
            0x45 => Some(Opcode::I32Eqz),
            0x46 => Some(Opcode::I32Eq),
            0x47 => Some(Opcode::I32Ne),
            0x48 => Some(Opcode::I32LtS),
            0x49 => Some(Opcode::I32LtU),
            0x4a => Some(Opcode::I32GtS),
            0x4b => Some(Opcode::I32GtU),
            0x4c => Some(Opcode::I32LeS),
            0x4d => Some(Opcode::I32LeU),
            0x4e => Some(Opcode::I32GeS),
            0x4f => Some(Opcode::I32GeU),
            0x50 => Some(Opcode::I64Eqz),
            0x51 => Some(Opcode::I64Eq),
            0x52 => Some(Opcode::I64Ne),
            0x53 => Some(Opcode::I64LtS),
            0x54 => Some(Opcode::I64LtU),
            0x55 => Some(Opcode::I64GtS),
            0x56 => Some(Opcode::I64GtU),
            0x57 => Some(Opcode::I64LeS),
            0x58 => Some(Opcode::I64LeU),
            0x59 => Some(Opcode::I64GeS),
            0x5a => Some(Opcode::I64GeU),
            0x5b => Some(Opcode::F32Eq),
            0x5c => Some(Opcode::F32Ne),
            0x5d => Some(Opcode::F32Lt),
            0x5e => Some(Opcode::F32Gt),
            0x5f => Some(Opcode::F32Le),
            0x60 => Some(Opcode::F32Ge),
            0x61 => Some(Opcode::F64Eq),
            0x62 => Some(Opcode::F64Ne),
            0x63 => Some(Opcode::F64Lt),
            0x64 => Some(Opcode::F64Gt),
            0x65 => Some(Opcode::F64Le),
            0x66 => Some(Opcode::F64Ge),
            0x67 => Some(Opcode::I32Clz),
            0x68 => Some(Opcode::I32Ctz),
            0x69 => Some(Opcode::I32Popcnt),
            0x6a => Some(Opcode::I32Add),
            0x6b => Some(Opcode::I32Sub),
            0x6c => Some(Opcode::I32Mul),
            0x6d => Some(Opcode::I32DivS),
            0x6e => Some(Opcode::I32DivU),
            0x6f => Some(Opcode::I32RemS),
            0x70 => Some(Opcode::I32RemU),
            0x71 => Some(Opcode::I32And),
            0x72 => Some(Opcode::I32Or),
            0x73 => Some(Opcode::I32Xor),
            0x74 => Some(Opcode::I32Shl),
            0x75 => Some(Opcode::I32ShrS),
            0x76 => Some(Opcode::I32ShrU),
            0x77 => Some(Opcode::I32Rotl),
            0x78 => Some(Opcode::I32Rotr),
            0x79 => Some(Opcode::I64Clz),
            0x7a => Some(Opcode::I64Ctz),
            0x7b => Some(Opcode::I64Popcnt),
            0x7c => Some(Opcode::I64Add),
            0x7d => Some(Opcode::I64Sub),
            0x7e => Some(Opcode::I64Mul),
            0x7f => Some(Opcode::I64DivS),
            0x80 => Some(Opcode::I64DivU),
            0x81 => Some(Opcode::I64RemS),
            0x82 => Some(Opcode::I64RemU),
            0x83 => Some(Opcode::I64And),
            0x84 => Some(Opcode::I64Or),
            0x85 => Some(Opcode::I64Xor),
            0x86 => Some(Opcode::I64Shl),
            0x87 => Some(Opcode::I64ShrS),
            0x88 => Some(Opcode::I64ShrU),
            0x89 => Some(Opcode::I64Rotl),
            0x8a => Some(Opcode::I64Rotr),
            0x8b => Some(Opcode::F32Abs),
            0x8c => Some(Opcode::F32Neg),
            0x8d => Some(Opcode::F32Ceil),
            0x8e => Some(Opcode::F32Floor),
            0x8f => Some(Opcode::F32Trunc),
            0x90 => Some(Opcode::F32Nearest),
            0x91 => Some(Opcode::F32Sqrt),
            0x92 => Some(Opcode::F32Add),
            0x93 => Some(Opcode::F32Sub),
            0x94 => Some(Opcode::F32Mul),
            0x95 => Some(Opcode::F32Div),
            0x96 => Some(Opcode::F32Min),
            0x97 => Some(Opcode::F32Max),
            0x98 => Some(Opcode::F32Copysign),
            0x99 => Some(Opcode::F64Abs),
            0x9a => Some(Opcode::F64Neg),
            0x9b => Some(Opcode::F64Ceil),
            0x9c => Some(Opcode::F64Floor),
            0x9d => Some(Opcode::F64Trunc),
            0x9e => Some(Opcode::F64Nearest),
            0x9f => Some(Opcode::F64Sqrt),
            0xa0 => Some(Opcode::F64Add),
            0xa1 => Some(Opcode::F64Sub),
            0xa2 => Some(Opcode::F64Mul),
            0xa3 => Some(Opcode::F64Div),
            0xa4 => Some(Opcode::F64Min),
            0xa5 => Some(Opcode::F64Max),
            0xa6 => Some(Opcode::F64Copysign),
            0xa7 => Some(Opcode::I32WrapI64),
            0xa8 => Some(Opcode::I32TruncSF32),
            0xa9 => Some(Opcode::I32TruncUF32),
            0xaa => Some(Opcode::I32TruncSF64),
            0xab => Some(Opcode::I32TruncUF64),
            0xac => Some(Opcode::I64ExtendSI32),
            0xad => Some(Opcode::I64ExtendUI32),
            0xae => Some(Opcode::I64TruncSF32),
            0xaf => Some(Opcode::I64TruncUF32),
            0xb0 => Some(Opcode::I64TruncSF64),
            0xb1 => Some(Opcode::I64TruncUF64),
            0xb2 => Some(Opcode::F32ConvertSI32),
            0xb3 => Some(Opcode::F32ConvertUI32),
            0xb4 => Some(Opcode::F32ConvertSI64),
            0xb5 => Some(Opcode::F32ConvertUI64),
            0xb6 => Some(Opcode::F32DemoteF64),
            0xb7 => Some(Opcode::F64ConvertSI32),
            0xb8 => Some(Opcode::F64ConvertUI32),
            0xb9 => Some(Opcode::F64ConvertSI64),
            0xba => Some(Opcode::F64ConvertUI64),
            0xbb => Some(Opcode::F64PromoteF32),
            0xbc => Some(Opcode::I32ReinterpretF32),
            0xbd => Some(Opcode::I64ReinterpretF64),
            0xbe => Some(Opcode::F32ReinterpretI32),
            0xbf => Some(Opcode::F64ReinterpretI64),
            _ => None,
        }
    }
}

} // verus!
