use parity_wasm::builder;
use parity_wasm::elements::{External, Instruction, Instructions, Module};
use scs::cost_rules::DefaultRules;
use scs::metering::{add_metering, GAS_MODULE_NAME};
use wasm_instrument::gas_metering::{MemoryGrowCost, Rules};

fn module_with_body(instructions: Vec<Instruction>) -> Vec<u8> {
    let module = builder::module()
        .function()
        .signature()
        .build()
        .body()
        .with_instructions(Instructions::new(instructions))
        .build()
        .build()
        .export()
        .field("f")
        .internal()
        .func(0)
        .build()
        .build();
    module.into_bytes().unwrap()
}

fn only_body(bytes: &[u8]) -> Vec<Instruction> {
    let module = Module::from_bytes(bytes).unwrap();
    let bodies = module.code_section().unwrap().bodies();
    assert_eq!(bodies.len(), 1);
    bodies[0].code().elements().to_vec()
}

fn gas_imports(bytes: &[u8]) -> usize {
    let module = Module::from_bytes(bytes).unwrap();
    match module.import_section() {
        Some(section) => section
            .entries()
            .iter()
            .filter(|entry| {
                entry.module() == "scs"
                    && entry.field() == "gas"
                    && matches!(entry.external(), External::Function(_))
            })
            .count(),
        None => 0,
    }
}

#[test]
fn an_add_and_a_call_are_charged_seven_at_the_start() {
    let input = module_with_body(vec![Instruction::I64Add, Instruction::Call(0), Instruction::End]);
    let metered = add_metering(&input).unwrap();
    assert_eq!(
        only_body(&metered),
        vec![
            Instruction::I64Const(7),
            Instruction::Call(0),
            Instruction::I64Add,
            Instruction::Call(1),
            Instruction::End,
        ]
    );
    assert_eq!(gas_imports(&metered), 1);
    assert_eq!(GAS_MODULE_NAME, "scs");
}

#[test]
fn bytes_that_are_no_module_give_no_result() {
    assert_eq!(add_metering(&[]), None);
    assert_eq!(add_metering(b"not a module"), None);
    assert_eq!(add_metering(&[0x00, 0x61, 0x73, 0x6d]), None);
    assert_eq!(add_metering(&[0x00, 0x61, 0x73, 0x6d, 0x02, 0x00, 0x00, 0x00]), None);
    let mut cut = module_with_body(vec![Instruction::Nop, Instruction::End]);
    cut.pop();
    assert_eq!(add_metering(&cut), None);
}

#[test]
fn the_empty_module_is_metered() {
    let input = vec![0x00, 0x61, 0x73, 0x6d, 0x01, 0x00, 0x00, 0x00];
    let metered = add_metering(&input).unwrap();
    assert_eq!(gas_imports(&metered), 1);
}

#[test]
fn a_floating_point_instruction_rejects_the_module() {
    let input = module_with_body(vec![
        Instruction::F32Const(0),
        Instruction::Drop,
        Instruction::End,
    ]);
    assert_eq!(add_metering(&input), None);
    let input = module_with_body(vec![
        Instruction::I64Const(1),
        Instruction::F64ConvertSI64,
        Instruction::Drop,
        Instruction::End,
    ]);
    assert_eq!(add_metering(&input), None);
}

#[test]
fn metering_again_charges_for_the_metering() {
    let input = module_with_body(vec![Instruction::I64Add, Instruction::Call(0), Instruction::End]);
    let once = add_metering(&input).unwrap();
    let twice = add_metering(&once).unwrap();
    assert_eq!(
        only_body(&twice),
        vec![
            Instruction::I64Const(13),
            Instruction::Call(1),
            Instruction::I64Const(7),
            Instruction::Call(0),
            Instruction::I64Add,
            Instruction::Call(2),
            Instruction::End,
        ]
    );
    assert_eq!(gas_imports(&twice), 2);
    assert!(twice.len() > once.len());
}

#[test]
fn each_branch_of_a_block_is_charged_on_its_own() {
    let input = module_with_body(vec![
        Instruction::GetGlobal(0),
        Instruction::If(parity_wasm::elements::BlockType::NoResult),
        Instruction::I64Const(1),
        Instruction::I64Const(2),
        Instruction::I64Mul,
        Instruction::Drop,
        Instruction::End,
        Instruction::End,
    ]);
    let metered = add_metering(&input).unwrap();
    assert_eq!(
        only_body(&metered),
        vec![
            Instruction::I64Const(2),
            Instruction::Call(0),
            Instruction::GetGlobal(0),
            Instruction::If(parity_wasm::elements::BlockType::NoResult),
            Instruction::I64Const(6),
            Instruction::Call(0),
            Instruction::I64Const(1),
            Instruction::I64Const(2),
            Instruction::I64Mul,
            Instruction::Drop,
            Instruction::End,
            Instruction::End,
        ]
    );
}

#[test]
fn the_rules_price_instructions_of_a_parsed_module() {
    let rules = DefaultRules::default();
    assert_eq!(Rules::instruction_cost(&rules, &Instruction::I64Add), Some(2));
    assert_eq!(Rules::instruction_cost(&rules, &Instruction::Call(77)), Some(5));
    assert_eq!(Rules::instruction_cost(&rules, &Instruction::CallIndirect(1, 0)), Some(100));
    assert_eq!(Rules::instruction_cost(&rules, &Instruction::GrowMemory(0)), Some(10));
    assert_eq!(Rules::instruction_cost(&rules, &Instruction::End), Some(0));
    assert_eq!(Rules::instruction_cost(&rules, &Instruction::F32Add), None);
    let table = parity_wasm::elements::BrTableData {
        table: vec![0u32; 5].into_boxed_slice(),
        default: 0,
    };
    assert_eq!(Rules::instruction_cost(&rules, &Instruction::BrTable(Box::new(table))), Some(7));
    assert_eq!(Rules::memory_grow_cost(&rules), MemoryGrowCost::Free);
}

#[test]
fn cost_of_encoding_reads_the_opcode() {
    let rules = DefaultRules::default();
    assert_eq!(rules.cost_of_encoding(&[0x7c]), Some(2));
    assert_eq!(rules.cost_of_encoding(&[0x10, 0x05]), Some(5));
    assert_eq!(rules.cost_of_encoding(&[0x0e, 0x03, 0, 0, 0, 0]), Some(5));
    assert_eq!(rules.cost_of_encoding(&[0x0e]), None);
    assert_eq!(rules.cost_of_encoding(&[0x92]), None);
    assert_eq!(rules.cost_of_encoding(&[]), None);
    assert_eq!(rules.cost_of_encoding(&[0xfe, 0x00]), None);
}

#[test]
fn a_call_of_the_largest_index_rejects_the_module() {
    let input = module_with_body(vec![Instruction::Call(u32::MAX), Instruction::End]);
    assert!(Module::from_bytes(&input).is_ok());
    assert_eq!(add_metering(&input), None);
    let below = module_with_body(vec![Instruction::Call(u32::MAX - 1), Instruction::End]);
    assert_eq!(
        only_body(&add_metering(&below).unwrap()),
        vec![
            Instruction::I64Const(5),
            Instruction::Call(0),
            Instruction::Call(u32::MAX),
            Instruction::End,
        ]
    );
}

#[test]
fn an_export_of_the_largest_index_rejects_the_module() {
    let module = builder::module()
        .function()
        .signature()
        .build()
        .body()
        .with_instructions(Instructions::new(vec![Instruction::End]))
        .build()
        .build()
        .export()
        .field("f")
        .internal()
        .func(u32::MAX)
        .build()
        .build();
    let input = module.into_bytes().unwrap();
    assert!(Module::from_bytes(&input).is_ok());
    assert_eq!(add_metering(&input), None);
}

#[test]
fn a_start_function_of_the_largest_index_rejects_the_module() {
    let mut module = builder::module()
        .function()
        .signature()
        .build()
        .body()
        .with_instructions(Instructions::new(vec![Instruction::End]))
        .build()
        .build()
        .build();
    module
        .sections_mut()
        .insert(2, parity_wasm::elements::Section::Start(u32::MAX));
    let input = module.into_bytes().unwrap();
    let parsed = Module::from_bytes(&input).unwrap();
    assert_eq!(parsed.start_section(), Some(u32::MAX));
    assert_eq!(add_metering(&input), None);
}

#[test]
fn an_element_of_the_largest_index_rejects_the_module() {
    let with_member = |member: u32| {
        let module = builder::module()
            .function()
            .signature()
            .build()
            .body()
            .with_instructions(Instructions::new(vec![Instruction::End]))
            .build()
            .build()
            .table()
            .with_min(1)
            .with_element(0, vec![0, member])
            .build()
            .build();
        module.into_bytes().unwrap()
    };
    let input = with_member(u32::MAX);
    assert!(Module::from_bytes(&input).is_ok());
    assert_eq!(add_metering(&input), None);
    let metered = add_metering(&with_member(7)).unwrap();
    let module = Module::from_bytes(&metered).unwrap();
    let members = module.elements_section().unwrap().entries()[0].members().to_vec();
    assert_eq!(members, vec![1, 8]);
}
