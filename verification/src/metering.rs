//! Gas metering of a module: the transform that makes a module pay for what
//! it executes, and what a caller in another language is handed for each way an
//! attempt to meter a module can end.
//!
//! The module is parsed, rewritten and written out again by `parity_wasm` and
//! `wasm_instrument`; the weight of each instruction is this crate's. Reading a
//! foreign caller's memory and giving up the output buffer happen outside this
//! module: here are the decisions between them, over addresses and sizes as
//! plain numbers.

use crate::cost_rules::{DefaultRules, GrowthCost};
use crate::inspect::{indices_can_shift, spec_indices_can_shift};
use crate::opcode::{spec_decode, Opcode};
use parity_wasm::elements::{Error, Instruction, Module};
use vstd::prelude::*;
use wasm_instrument::gas_metering::{MemoryGrowCost, Rules};

verus! {

/// A parsed module, `parity_wasm::elements::Module`.
#[verifier::external_type_specification]
#[verifier::external_body]
pub struct ExModule(parity_wasm::elements::Module);

/// One instruction of a parsed module, `parity_wasm::elements::Instruction`.
#[verifier::external_type_specification]
#[verifier::external_body]
pub struct ExInstruction(parity_wasm::elements::Instruction);

/// Why a module could not be parsed or written, `parity_wasm::elements::Error`.
#[verifier::external_type_specification]
#[verifier::external_body]
pub struct ExError(parity_wasm::elements::Error);

/// The cost of growing memory as the transform takes it,
/// `wasm_instrument::gas_metering::MemoryGrowCost`.
#[verifier::external_type_specification]
#[verifier::external_body]
pub struct ExMemoryGrowCost(wasm_instrument::gas_metering::MemoryGrowCost);

/// Whether `bytes` are the binary form of a module that
/// `parity_wasm::elements::Module::from_bytes` accepts.
pub uninterp spec fn wasm_module_parses(bytes: Seq<u8>) -> bool;

/// The module that `parity_wasm::elements::Module::from_bytes` reads from
/// `bytes`, where it accepts them.
pub uninterp spec fn wasm_parsed_module(bytes: Seq<u8>) -> Module;

/// The bytes that `parity_wasm::elements::Module::into_bytes` writes `module`
/// as, or `None` where it cannot write it.
pub uninterp spec fn wasm_module_bytes(module: Module) -> Option<Seq<u8>>;

/// The bytes that `parity_wasm::elements::serialize` writes `instruction` as,
/// or `None` where it cannot write it.
pub uninterp spec fn wasm_instruction_bytes(instruction: Instruction) -> Option<Seq<u8>>;

/// `module` with the gas metering of `wasm_instrument::gas_metering::inject`
/// under the weights of `rules`, charging through the function `gas` of the
/// module `gas_module_name`; `None` where the module holds an instruction that
/// the rules have no weight for.
pub uninterp spec fn wasm_injected_module(
    module: Module,
    rules: DefaultRules,
    gas_module_name: Seq<char>,
) -> Option<Module>;

/// What a cost of growing memory, as the transform takes it, is in this
/// crate's terms.
pub uninterp spec fn growth_cost_of(cost: MemoryGrowCost) -> GrowthCost;

/// The module that `Module::from_bytes` reads from `buf`. Trusted: whether a
/// module comes out, and which, depends on the bytes alone.
#[verifier::external_body]
fn parse_module(buf: &[u8]) -> (out: Result<Module, Error>)
    ensures
        out is Ok <==> wasm_module_parses(buf@),
        out matches Ok(module) ==> module == wasm_parsed_module(buf@),
{
    Module::from_bytes(buf)
}

/// The bytes that `Module::into_bytes` writes `module` as. Trusted: they
/// depend on the module alone.
#[verifier::external_body]
fn module_into_bytes(module: Module) -> (out: Result<Vec<u8>, Error>)
    ensures
        match out {
            Ok(bytes) => wasm_module_bytes(module) == Some(bytes@),
            Err(_) => wasm_module_bytes(module) is None,
        },
{
    module.into_bytes()
}

/// The bytes that `parity_wasm::elements::serialize` writes `instruction` as.
/// Trusted: they depend on the instruction alone.
#[verifier::external_body]
fn instruction_encoding(instruction: &Instruction) -> (out: Result<Vec<u8>, Error>)
    ensures
        match out {
            Ok(bytes) => wasm_instruction_bytes(*instruction) == Some(bytes@),
            Err(_) => wasm_instruction_bytes(*instruction) is None,
        },
{
    parity_wasm::elements::serialize(instruction.clone())
}

/// `cost` as the transform takes it. Trusted: the two kinds of cost
/// correspond one to one; a charge for each page is never zero.
#[verifier::external_body]
fn to_memory_grow_cost(cost: GrowthCost) -> (out: MemoryGrowCost)
    requires
        cost matches GrowthCost::Linear(charge) ==> charge > 0,
    ensures
        growth_cost_of(out) == cost,
{
    match cost {
        GrowthCost::Free => MemoryGrowCost::Free,
        GrowthCost::Linear(charge) => {
            core::num::NonZeroU32::new(charge).map_or(MemoryGrowCost::Free, MemoryGrowCost::Linear)
        },
    }
}

/// `module` with gas metering injected by `wasm_instrument::gas_metering::inject`
/// under the weights of `rules`: the module charges gas through the function
/// `gas` that it imports from the module `gas_module_name`. The error is the
/// module as it was handed in, where it holds an instruction that `rules` has no
/// weight for.
///
/// The injector moves every function index at or after the new import up by
/// one, and cannot move the largest 32-bit number: such a module is left out.
/// So is a module that was not read from bytes: a parsed module holds each
/// section once, and no parsed name section. Trusted: the result depends on
/// the module, the weights and the name alone.
#[verifier::external_body]
fn inject(module: Module, rules: &DefaultRules, gas_module_name: &str) -> (out: Result<
    Module,
    Module,
>)
    requires
        exists|bytes: Seq<u8>|
            wasm_module_parses(bytes) && module == #[trigger] wasm_parsed_module(bytes),
        spec_indices_can_shift(module),
    ensures
        match out {
            Ok(metered) => wasm_injected_module(module, *rules, gas_module_name@) == Some(metered),
            Err(_) => wasm_injected_module(module, *rules, gas_module_name@) is None,
        },
{
    wasm_instrument::gas_metering::inject(module, rules, gas_module_name)
}

/// The name of the module that a metered module imports its gas function from.
pub const GAS_MODULE_NAME: &'static str = "scs";

impl DefaultRules {
    /// The weight of the instruction that `encoding` starts with: `None` where
    /// it starts with no known instruction, or with one that has no weight.
    pub open spec fn spec_cost_of_encoding(&self, encoding: Seq<u8>) -> Option<u32> {
        match spec_decode(encoding) {
            Some(opcode) => self.spec_opcode_cost(opcode),
            None => None,
        }
    }

    /// The weight of the instruction that `encoding` starts with.
    pub fn cost_of_encoding(&self, encoding: &[u8]) -> (out: Option<u32>)
        ensures
            out == self.spec_cost_of_encoding(encoding@),
    {
        match Opcode::decode(encoding) {
            Some(opcode) => self.opcode_cost(&opcode),
            None => None,
        }
    }
}

impl Rules for DefaultRules {
    /// The weight of `instruction`: that of the instruction that its binary
    /// encoding starts with, and `None` where the instruction cannot be
    /// encoded. `None` rejects the module.
    fn instruction_cost(&self, instruction: &Instruction) -> (out: Option<u32>)
        ensures
            out == match wasm_instruction_bytes(*instruction) {
                Some(encoding) => self.spec_cost_of_encoding(encoding),
                None => None,
            },
    {
        match instruction_encoding(instruction) {
            Ok(encoding) => self.cost_of_encoding(encoding.as_slice()),
            Err(_) => None,
        }
    }

    /// What growing memory costs for each page: nothing.
    fn memory_grow_cost(&self) -> (out: MemoryGrowCost)
        ensures
            growth_cost_of(out) == GrowthCost::Free,
    {
        to_memory_grow_cost(self.growth_cost())
    }
}

/// The metered form of the module that `bytes` encode, under the reference
/// weights and with the gas function imported from `scs`; `None` where there
/// is none: the bytes are no valid module, the module holds a function index
/// that cannot move up by one, it holds an instruction without a weight, or the
/// metered module cannot be written.
pub open spec fn spec_add_metering(bytes: Seq<u8>) -> Option<Seq<u8>> {
    if !wasm_module_parses(bytes) {
        None
    } else if !spec_indices_can_shift(wasm_parsed_module(bytes)) {
        None
    } else {
        match wasm_injected_module(
            wasm_parsed_module(bytes),
            DefaultRules::spec_default(),
            GAS_MODULE_NAME@,
        ) {
            Some(metered) => wasm_module_bytes(metered),
            None => None,
        }
    }
}

/// The metered form of the module in `buf` under the reference weights, or
/// `None` where there is none. No default weight stands in for a missing one:
/// one instruction without a weight rejects the whole module.
pub fn add_metering(buf: &[u8]) -> (out: Option<Vec<u8>>)
    ensures
        match out {
            Some(bytes) => spec_add_metering(buf@) == Some(bytes@),
            None => spec_add_metering(buf@) is None,
        },
        !wasm_module_parses(buf@) ==> out is None,
{
    let module = match parse_module(buf) {
        Ok(module) => module,
        Err(_) => {
            return None;
        },
    };
    if !indices_can_shift(&module) {
        return None;
    }
    let rules = DefaultRules::default();
    let out_mod = match inject(module, &rules, GAS_MODULE_NAME) {
        Ok(metered_module) => metered_module,
        Err(_) => {
            return None;
        },
    };
    match module_into_bytes(out_mod) {
        Ok(bytes) => Some(bytes),
        Err(_) => None,
    }
}

/// A buffer on the heap, by the address of its first byte, the number of bytes
/// in use and the number of bytes allocated.
#[derive(Clone, Copy, PartialEq, Eq, Debug)]
pub struct RawBuffer {
    pub data: usize,
    pub len: usize,
    pub capacity: usize,
}

/// A metered module as a caller in another language receives it: the address
/// of its bytes, their number, and the capacity of the buffer that holds them.
/// The caller owns the buffer until it hands these three values back.
///
/// The all-zero value says that there is no metered module.
#[allow(non_camel_case_types)]
#[derive(Clone, Copy, PartialEq, Eq, Debug)]
pub struct metered_contract {
    pub data: usize,
    pub len: u32,
    pub capacity: u32,
}

/// How an attempt to meter a caller's module ended.
#[derive(Clone, Copy, PartialEq, Eq, Debug)]
pub enum MeteringAttempt {
    /// The caller handed over a null pointer; nothing was read.
    NullInput,
    /// The transform aborted without a result of any kind.
    Aborted,
    /// The transform reported that it has no result: the input is no valid
    /// module, or holds an instruction that has no cost.
    NoResult,
    /// The transform gave a metered module, whose bytes lie in this buffer.
    Metered(RawBuffer),
}

impl metered_contract {
    /// The value that says that there is no metered module.
    pub open spec fn spec_null() -> metered_contract {
        metered_contract { data: 0, len: 0, capacity: 0 }
    }

    /// The value that says that there is no metered module.
    pub fn null() -> (out: Self)
        ensures
            out == Self::spec_null(),
    {
        Self { data: 0, len: 0, capacity: 0 }
    }

    /// Whether this is the value that says that there is no metered module.
    pub fn is_null(&self) -> (out: bool)
        ensures
            out == (self.data == 0),
    {
        self.data == 0
    }
}

/// What a caller receives for an attempt that ended as `attempt`.
pub open spec fn spec_add_metering_ext(attempt: MeteringAttempt) -> metered_contract {
    match attempt {
        MeteringAttempt::Metered(buffer) => if buffer.capacity <= u32::MAX {
            metered_contract {
                data: buffer.data,
                len: buffer.len as u32,
                capacity: buffer.capacity as u32,
            }
        } else {
            metered_contract::spec_null()
        },
        _ => metered_contract::spec_null(),
    }
}

/// What a caller receives for an attempt that ended as `attempt`.
///
/// Only a metered module whose buffer's capacity fits in 32 bits is handed
/// over. Every other end gives the all-zero value: a failure of the transform,
/// and an abort inside it, never reach the caller in any other form.
pub fn add_metering_ext(attempt: MeteringAttempt) -> (out: metered_contract)
    requires
        attempt matches MeteringAttempt::Metered(buffer) ==> buffer.len <= buffer.capacity,
    ensures
        out == spec_add_metering_ext(attempt),
        attempt is NullInput ==> out == metered_contract::spec_null(),
{
    match attempt {
        MeteringAttempt::NullInput => metered_contract::null(),
        MeteringAttempt::Aborted => metered_contract::null(),
        MeteringAttempt::NoResult => metered_contract::null(),
        MeteringAttempt::Metered(buffer) => {
            if buffer.capacity <= 0xffff_ffff {
                metered_contract {
                    data: buffer.data,
                    len: buffer.len as u32,
                    capacity: buffer.capacity as u32,
                }
            } else {
                metered_contract::null()
            }
        },
    }
}

/// The buffer to release when a caller hands `contract` back, or `None` where
/// there is nothing to release.
pub open spec fn spec_free_metered_contract(contract: metered_contract) -> Option<RawBuffer> {
    if contract.data == 0 {
        None
    } else {
        Some(
            RawBuffer {
                data: contract.data,
                len: contract.len as usize,
                capacity: contract.capacity as usize,
            },
        )
    }
}

/// The buffer to release when a caller hands `contract` back, or `None` where
/// there is nothing to release: handing back a null pointer does nothing.
pub fn free_metered_contract(contract: metered_contract) -> (out: Option<RawBuffer>)
    ensures
        out == spec_free_metered_contract(contract),
{
    if contract.data == 0 {
        None
    } else {
        Some(
            RawBuffer {
                data: contract.data,
                len: contract.len as usize,
                capacity: contract.capacity as usize,
            },
        )
    }
}

/// What is released for a result is the buffer that the result was made from:
/// a caller that hands back the three values it was given gives back the whole
/// buffer, and one that hands back the all-zero value gives back nothing.
pub proof fn lemma_release_matches_export(attempt: MeteringAttempt)
    requires
        attempt matches MeteringAttempt::Metered(buffer) ==> buffer.len <= buffer.capacity
            && buffer.data != 0,
    ensures
        spec_free_metered_contract(spec_add_metering_ext(attempt)) == match attempt {
            MeteringAttempt::Metered(buffer) => if buffer.capacity <= u32::MAX {
                Some(buffer)
            } else {
                None
            },
            _ => None,
        },
{
}

} // verus!
