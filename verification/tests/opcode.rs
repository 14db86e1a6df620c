use parity_wasm::elements::{serialize, BlockType, BrTableData, Instruction};
use scs::opcode::{read_varuint32, Opcode};

fn br_table(targets: usize) -> Instruction {
    Instruction::BrTable(Box::new(BrTableData {
        table: vec![3u32; targets].into_boxed_slice(),
        default: 1,
    }))
}

#[test]
fn every_instruction_decodes_from_its_encoding() {
    let all = [
        (Instruction::Unreachable, Opcode::Unreachable, 0x00),
        (Instruction::Nop, Opcode::Nop, 0x01),
        (Instruction::Block(BlockType::NoResult), Opcode::Block, 0x02),
        (Instruction::Loop(BlockType::NoResult), Opcode::Loop, 0x03),
        (Instruction::If(BlockType::NoResult), Opcode::If, 0x04),
        (Instruction::Else, Opcode::Else, 0x05),
        (Instruction::End, Opcode::End, 0x0b),
        (Instruction::Br(300), Opcode::Br, 0x0c),
        (Instruction::BrIf(300), Opcode::BrIf, 0x0d),
        (Instruction::Return, Opcode::Return, 0x0f),
        (Instruction::Call(300), Opcode::Call, 0x10),
        (Instruction::CallIndirect(300, 0), Opcode::CallIndirect, 0x11),
        (Instruction::Drop, Opcode::Drop, 0x1a),
        (Instruction::Select, Opcode::Select, 0x1b),
        (Instruction::GetLocal(300), Opcode::GetLocal, 0x20),
        (Instruction::SetLocal(300), Opcode::SetLocal, 0x21),
        (Instruction::TeeLocal(300), Opcode::TeeLocal, 0x22),
        (Instruction::GetGlobal(300), Opcode::GetGlobal, 0x23),
        (Instruction::SetGlobal(300), Opcode::SetGlobal, 0x24),
        (Instruction::I32Load(300, 70000), Opcode::I32Load, 0x28),
        (Instruction::I64Load(300, 70000), Opcode::I64Load, 0x29),
        (Instruction::F32Load(300, 70000), Opcode::F32Load, 0x2a),
        (Instruction::F64Load(300, 70000), Opcode::F64Load, 0x2b),
        (Instruction::I32Load8S(300, 70000), Opcode::I32Load8S, 0x2c),
        (Instruction::I32Load8U(300, 70000), Opcode::I32Load8U, 0x2d),
        (Instruction::I32Load16S(300, 70000), Opcode::I32Load16S, 0x2e),
        (Instruction::I32Load16U(300, 70000), Opcode::I32Load16U, 0x2f),
        (Instruction::I64Load8S(300, 70000), Opcode::I64Load8S, 0x30),
        (Instruction::I64Load8U(300, 70000), Opcode::I64Load8U, 0x31),
        (Instruction::I64Load16S(300, 70000), Opcode::I64Load16S, 0x32),
        (Instruction::I64Load16U(300, 70000), Opcode::I64Load16U, 0x33),
        (Instruction::I64Load32S(300, 70000), Opcode::I64Load32S, 0x34),
        (Instruction::I64Load32U(300, 70000), Opcode::I64Load32U, 0x35),
        (Instruction::I32Store(300, 70000), Opcode::I32Store, 0x36),
        (Instruction::I64Store(300, 70000), Opcode::I64Store, 0x37),
        (Instruction::F32Store(300, 70000), Opcode::F32Store, 0x38),
        (Instruction::F64Store(300, 70000), Opcode::F64Store, 0x39),
        (Instruction::I32Store8(300, 70000), Opcode::I32Store8, 0x3a),
        (Instruction::I32Store16(300, 70000), Opcode::I32Store16, 0x3b),
        (Instruction::I64Store8(300, 70000), Opcode::I64Store8, 0x3c),
        (Instruction::I64Store16(300, 70000), Opcode::I64Store16, 0x3d),
        (Instruction::I64Store32(300, 70000), Opcode::I64Store32, 0x3e),
        (Instruction::CurrentMemory(0), Opcode::CurrentMemory, 0x3f),
        (Instruction::GrowMemory(0), Opcode::GrowMemory, 0x40),
        (Instruction::I32Const(-5), Opcode::I32Const, 0x41),
        (Instruction::I64Const(-6), Opcode::I64Const, 0x42),
        (Instruction::F32Const(300), Opcode::F32Const, 0x43),
        (Instruction::F64Const(7), Opcode::F64Const, 0x44),
        (Instruction::I32Eqz, Opcode::I32Eqz, 0x45),
        (Instruction::I32Eq, Opcode::I32Eq, 0x46),
        (Instruction::I32Ne, Opcode::I32Ne, 0x47),
        (Instruction::I32LtS, Opcode::I32LtS, 0x48),
        (Instruction::I32LtU, Opcode::I32LtU, 0x49),
        (Instruction::I32GtS, Opcode::I32GtS, 0x4a),
        (Instruction::I32GtU, Opcode::I32GtU, 0x4b),
        (Instruction::I32LeS, Opcode::I32LeS, 0x4c),
        (Instruction::I32LeU, Opcode::I32LeU, 0x4d),
        (Instruction::I32GeS, Opcode::I32GeS, 0x4e),
        (Instruction::I32GeU, Opcode::I32GeU, 0x4f),
        (Instruction::I64Eqz, Opcode::I64Eqz, 0x50),
        (Instruction::I64Eq, Opcode::I64Eq, 0x51),
        (Instruction::I64Ne, Opcode::I64Ne, 0x52),
        (Instruction::I64LtS, Opcode::I64LtS, 0x53),
        (Instruction::I64LtU, Opcode::I64LtU, 0x54),
        (Instruction::I64GtS, Opcode::I64GtS, 0x55),
        (Instruction::I64GtU, Opcode::I64GtU, 0x56),
        (Instruction::I64LeS, Opcode::I64LeS, 0x57),
        (Instruction::I64LeU, Opcode::I64LeU, 0x58),
        (Instruction::I64GeS, Opcode::I64GeS, 0x59),
        (Instruction::I64GeU, Opcode::I64GeU, 0x5a),
        (Instruction::F32Eq, Opcode::F32Eq, 0x5b),
        (Instruction::F32Ne, Opcode::F32Ne, 0x5c),
        (Instruction::F32Lt, Opcode::F32Lt, 0x5d),
        (Instruction::F32Gt, Opcode::F32Gt, 0x5e),
        (Instruction::F32Le, Opcode::F32Le, 0x5f),
        (Instruction::F32Ge, Opcode::F32Ge, 0x60),
        (Instruction::F64Eq, Opcode::F64Eq, 0x61),
        (Instruction::F64Ne, Opcode::F64Ne, 0x62),
        (Instruction::F64Lt, Opcode::F64Lt, 0x63),
        (Instruction::F64Gt, Opcode::F64Gt, 0x64),
        (Instruction::F64Le, Opcode::F64Le, 0x65),
        (Instruction::F64Ge, Opcode::F64Ge, 0x66),
        (Instruction::I32Clz, Opcode::I32Clz, 0x67),
        (Instruction::I32Ctz, Opcode::I32Ctz, 0x68),
        (Instruction::I32Popcnt, Opcode::I32Popcnt, 0x69),
        (Instruction::I32Add, Opcode::I32Add, 0x6a),
        (Instruction::I32Sub, Opcode::I32Sub, 0x6b),
        (Instruction::I32Mul, Opcode::I32Mul, 0x6c),
        (Instruction::I32DivS, Opcode::I32DivS, 0x6d),
        (Instruction::I32DivU, Opcode::I32DivU, 0x6e),
        (Instruction::I32RemS, Opcode::I32RemS, 0x6f),
        (Instruction::I32RemU, Opcode::I32RemU, 0x70),
        (Instruction::I32And, Opcode::I32And, 0x71),
        (Instruction::I32Or, Opcode::I32Or, 0x72),
        (Instruction::I32Xor, Opcode::I32Xor, 0x73),
        (Instruction::I32Shl, Opcode::I32Shl, 0x74),
        (Instruction::I32ShrS, Opcode::I32ShrS, 0x75),
        (Instruction::I32ShrU, Opcode::I32ShrU, 0x76),
        (Instruction::I32Rotl, Opcode::I32Rotl, 0x77),
        (Instruction::I32Rotr, Opcode::I32Rotr, 0x78),
        (Instruction::I64Clz, Opcode::I64Clz, 0x79),
        (Instruction::I64Ctz, Opcode::I64Ctz, 0x7a),
        (Instruction::I64Popcnt, Opcode::I64Popcnt, 0x7b),
        (Instruction::I64Add, Opcode::I64Add, 0x7c),
        (Instruction::I64Sub, Opcode::I64Sub, 0x7d),
        (Instruction::I64Mul, Opcode::I64Mul, 0x7e),
        (Instruction::I64DivS, Opcode::I64DivS, 0x7f),
        (Instruction::I64DivU, Opcode::I64DivU, 0x80),
        (Instruction::I64RemS, Opcode::I64RemS, 0x81),
        (Instruction::I64RemU, Opcode::I64RemU, 0x82),
        (Instruction::I64And, Opcode::I64And, 0x83),
        (Instruction::I64Or, Opcode::I64Or, 0x84),
        (Instruction::I64Xor, Opcode::I64Xor, 0x85),
        (Instruction::I64Shl, Opcode::I64Shl, 0x86),
        (Instruction::I64ShrS, Opcode::I64ShrS, 0x87),
        (Instruction::I64ShrU, Opcode::I64ShrU, 0x88),
        (Instruction::I64Rotl, Opcode::I64Rotl, 0x89),
        (Instruction::I64Rotr, Opcode::I64Rotr, 0x8a),
        (Instruction::F32Abs, Opcode::F32Abs, 0x8b),
        (Instruction::F32Neg, Opcode::F32Neg, 0x8c),
        (Instruction::F32Ceil, Opcode::F32Ceil, 0x8d),
        (Instruction::F32Floor, Opcode::F32Floor, 0x8e),
        (Instruction::F32Trunc, Opcode::F32Trunc, 0x8f),
        (Instruction::F32Nearest, Opcode::F32Nearest, 0x90),
        (Instruction::F32Sqrt, Opcode::F32Sqrt, 0x91),
        (Instruction::F32Add, Opcode::F32Add, 0x92),
        (Instruction::F32Sub, Opcode::F32Sub, 0x93),
        (Instruction::F32Mul, Opcode::F32Mul, 0x94),
        (Instruction::F32Div, Opcode::F32Div, 0x95),
        (Instruction::F32Min, Opcode::F32Min, 0x96),
        (Instruction::F32Max, Opcode::F32Max, 0x97),
        (Instruction::F32Copysign, Opcode::F32Copysign, 0x98),
        (Instruction::F64Abs, Opcode::F64Abs, 0x99),
        (Instruction::F64Neg, Opcode::F64Neg, 0x9a),
        (Instruction::F64Ceil, Opcode::F64Ceil, 0x9b),
        (Instruction::F64Floor, Opcode::F64Floor, 0x9c),
        (Instruction::F64Trunc, Opcode::F64Trunc, 0x9d),
        (Instruction::F64Nearest, Opcode::F64Nearest, 0x9e),
        (Instruction::F64Sqrt, Opcode::F64Sqrt, 0x9f),
        (Instruction::F64Add, Opcode::F64Add, 0xa0),
        (Instruction::F64Sub, Opcode::F64Sub, 0xa1),
        (Instruction::F64Mul, Opcode::F64Mul, 0xa2),
        (Instruction::F64Div, Opcode::F64Div, 0xa3),
        (Instruction::F64Min, Opcode::F64Min, 0xa4),
        (Instruction::F64Max, Opcode::F64Max, 0xa5),
        (Instruction::F64Copysign, Opcode::F64Copysign, 0xa6),
        (Instruction::I32WrapI64, Opcode::I32WrapI64, 0xa7),
        (Instruction::I32TruncSF32, Opcode::I32TruncSF32, 0xa8),
        (Instruction::I32TruncUF32, Opcode::I32TruncUF32, 0xa9),
        (Instruction::I32TruncSF64, Opcode::I32TruncSF64, 0xaa),
        (Instruction::I32TruncUF64, Opcode::I32TruncUF64, 0xab),
        (Instruction::I64ExtendSI32, Opcode::I64ExtendSI32, 0xac),
        (Instruction::I64ExtendUI32, Opcode::I64ExtendUI32, 0xad),
        (Instruction::I64TruncSF32, Opcode::I64TruncSF32, 0xae),
        (Instruction::I64TruncUF32, Opcode::I64TruncUF32, 0xaf),
        (Instruction::I64TruncSF64, Opcode::I64TruncSF64, 0xb0),
        (Instruction::I64TruncUF64, Opcode::I64TruncUF64, 0xb1),
        (Instruction::F32ConvertSI32, Opcode::F32ConvertSI32, 0xb2),
        (Instruction::F32ConvertUI32, Opcode::F32ConvertUI32, 0xb3),
        (Instruction::F32ConvertSI64, Opcode::F32ConvertSI64, 0xb4),
        (Instruction::F32ConvertUI64, Opcode::F32ConvertUI64, 0xb5),
        (Instruction::F32DemoteF64, Opcode::F32DemoteF64, 0xb6),
        (Instruction::F64ConvertSI32, Opcode::F64ConvertSI32, 0xb7),
        (Instruction::F64ConvertUI32, Opcode::F64ConvertUI32, 0xb8),
        (Instruction::F64ConvertSI64, Opcode::F64ConvertSI64, 0xb9),
        (Instruction::F64ConvertUI64, Opcode::F64ConvertUI64, 0xba),
        (Instruction::F64PromoteF32, Opcode::F64PromoteF32, 0xbb),
        (Instruction::I32ReinterpretF32, Opcode::I32ReinterpretF32, 0xbc),
        (Instruction::I64ReinterpretF64, Opcode::I64ReinterpretF64, 0xbd),
        (Instruction::F32ReinterpretI32, Opcode::F32ReinterpretI32, 0xbe),
        (Instruction::F64ReinterpretI64, Opcode::F64ReinterpretI64, 0xbf),
    ];
    assert_eq!(all.len(), 171);
    for (instruction, expected, first_byte) in all {
        let encoding = serialize(instruction).unwrap();
        assert_eq!(encoding[0], first_byte);
        assert_eq!(Opcode::decode(&encoding), Some(expected));
        assert_eq!(Opcode::decode(&[first_byte]), Some(expected));
    }
}

#[test]
fn branch_table_decodes_with_the_number_of_its_targets() {
    for targets in [0usize, 1, 2, 127, 128, 129, 300, 16383, 16384, 70000] {
        let encoding = serialize(br_table(targets)).unwrap();
        assert_eq!(encoding[0], 0x0e);
        assert_eq!(Opcode::decode(&encoding), Some(Opcode::BrTable { targets }));
    }
}

#[test]
fn branch_table_without_a_count_does_not_decode() {
    assert_eq!(Opcode::decode(&[0x0e]), None);
    assert_eq!(Opcode::decode(&[0x0e, 0x80]), None);
    assert_eq!(Opcode::decode(&[0x0e, 0xff, 0xff, 0xff, 0xff, 0xff, 0x01]), None);
    assert_eq!(Opcode::decode(&[0x0e, 0xff, 0xff, 0xff, 0xff, 0x1f]), None);
    assert_eq!(
        Opcode::decode(&[0x0e, 0xff, 0xff, 0xff, 0xff, 0x0f]),
        Some(Opcode::BrTable { targets: u32::MAX as usize })
    );
    assert_eq!(Opcode::decode(&[0x0e, 0x05]), Some(Opcode::BrTable { targets: 5 }));
}

#[test]
fn unknown_opcodes_do_not_decode() {
    assert_eq!(Opcode::decode(&[]), None);
    for byte in [0x06u8, 0x0a, 0x12, 0x19, 0x1c, 0x1f, 0x25, 0x27, 0xc0, 0xc4, 0xfc, 0xfd, 0xfe, 0xff] {
        assert_eq!(Opcode::decode(&[byte]), None);
        assert_eq!(Opcode::decode(&[byte, 0, 0]), None);
    }
}

#[test]
fn exactly_the_known_opcodes_decode() {
    let known = (0u16..256).filter(|byte| Opcode::decode(&[*byte as u8, 0]).is_some()).count();
    assert_eq!(known, 172);
}

#[test]
fn varuint32_reads_leb128() {
    assert_eq!(read_varuint32(&[0x00], 0), Some(0));
    assert_eq!(read_varuint32(&[0x7f], 0), Some(127));
    assert_eq!(read_varuint32(&[0x80, 0x01], 0), Some(128));
    assert_eq!(read_varuint32(&[0xe5, 0x8e, 0x26], 0), Some(624485));
    assert_eq!(read_varuint32(&[0xff, 0xff, 0xff, 0xff, 0x0f], 0), Some(u32::MAX));
    assert_eq!(read_varuint32(&[0x80, 0x80, 0x80, 0x80, 0x10], 0), None);
    assert_eq!(read_varuint32(&[0x80, 0x80, 0x80, 0x80, 0x80, 0x00], 0), None);
    assert_eq!(read_varuint32(&[0x80], 0), None);
    assert_eq!(read_varuint32(&[], 0), None);
    assert_eq!(read_varuint32(&[0x05], 1), None);
    assert_eq!(read_varuint32(&[0xff, 0x05, 0x80], 1), Some(5));
    assert_eq!(read_varuint32(&[0x05], usize::MAX), None);
}
