//! What a parsed module holds of function indices, and whether all of them can
//! be shifted up by one.
//!
//! Metering adds one imported function to a module, so every reference to a
//! function at or after it moves up by one: in the `call` instructions of the
//! code, in the exports, in the element segments and in the start section. An
//! index that is already the largest 32-bit number cannot move. A module that
//! holds one is turned away before it is metered.

use parity_wasm::elements::{Instruction, Internal, Module};
use vstd::prelude::*;

verus! {

/// The number of function bodies in the code section of `module`; zero where
/// it has no code section.
pub uninterp spec fn wasm_body_count(module: Module) -> nat;

/// The number of instructions of the function body `body` of `module`.
pub uninterp spec fn wasm_body_len(module: Module, body: int) -> nat;

/// The function that the instruction `at` of the body `body` of `module`
/// calls, or `None` where that instruction is no `call`.
pub uninterp spec fn wasm_call_target(module: Module, body: int, at: int) -> Option<u32>;

/// The number of entries in the export section of `module`; zero where it has
/// no export section.
pub uninterp spec fn wasm_export_count(module: Module) -> nat;

/// The function that the export `entry` of `module` exports, or `None` where
/// it exports something else.
pub uninterp spec fn wasm_export_function(module: Module, entry: int) -> Option<u32>;

/// The number of segments in the element section of `module`; zero where it
/// has no element section.
pub uninterp spec fn wasm_segment_count(module: Module) -> nat;

/// The number of members of the element segment `segment` of `module`.
pub uninterp spec fn wasm_segment_len(module: Module, segment: int) -> nat;

/// The function that is the member `at` of the element segment `segment` of
/// `module`.
pub uninterp spec fn wasm_segment_member(module: Module, segment: int, at: int) -> u32;

/// The start function of `module`, or `None` where it has no start section.
pub uninterp spec fn wasm_start_function(module: Module) -> Option<u32>;

/// The number of bodies that `Module::code_section` and `CodeSection::bodies`
/// give for `module`.
#[verifier::external_body]
fn body_count(module: &Module) -> (out: usize)
    ensures
        out == wasm_body_count(*module),
{
    module.code_section().map_or(0, |section| section.bodies().len())
}

/// The number of instructions that `FuncBody::code` and
/// `Instructions::elements` give for one body of `module`.
#[verifier::external_body]
fn body_len(module: &Module, body: usize) -> (out: usize)
    requires
        body < wasm_body_count(*module),
    ensures
        out == wasm_body_len(*module, body as int),
{
    module.code_section().map_or(0, |section| section.bodies()[body].code().elements().len())
}

/// The index that one instruction of `module` holds where it is
/// `Instruction::Call`.
#[verifier::external_body]
fn call_target(module: &Module, body: usize, at: usize) -> (out: Option<u32>)
    requires
        body < wasm_body_count(*module),
        at < wasm_body_len(*module, body as int),
    ensures
        out == wasm_call_target(*module, body as int, at as int),
{
    match module.code_section()?.bodies()[body].code().elements()[at] {
        Instruction::Call(index) => Some(index),
        _ => None,
    }
}

/// The number of entries that `Module::export_section` and
/// `ExportSection::entries` give for `module`.
#[verifier::external_body]
fn export_count(module: &Module) -> (out: usize)
    ensures
        out == wasm_export_count(*module),
{
    module.export_section().map_or(0, |section| section.entries().len())
}

/// The index that `ExportEntry::internal` holds for one export of `module`
/// where it is `Internal::Function`.
#[verifier::external_body]
fn export_function(module: &Module, entry: usize) -> (out: Option<u32>)
    requires
        entry < wasm_export_count(*module),
    ensures
        out == wasm_export_function(*module, entry as int),
{
    match module.export_section()?.entries()[entry].internal() {
        Internal::Function(index) => Some(*index),
        _ => None,
    }
}

/// The number of segments that `Module::elements_section` and
/// `ElementSection::entries` give for `module`.
#[verifier::external_body]
fn segment_count(module: &Module) -> (out: usize)
    ensures
        out == wasm_segment_count(*module),
{
    module.elements_section().map_or(0, |section| section.entries().len())
}

/// The number of members that `ElementSegment::members` gives for one segment
/// of `module`.
#[verifier::external_body]
fn segment_len(module: &Module, segment: usize) -> (out: usize)
    requires
        segment < wasm_segment_count(*module),
    ensures
        out == wasm_segment_len(*module, segment as int),
{
    module.elements_section().map_or(0, |section| section.entries()[segment].members().len())
}

/// One member that `ElementSegment::members` gives for one segment of
/// `module`.
#[verifier::external_body]
fn segment_member(module: &Module, segment: usize, at: usize) -> (out: u32)
    requires
        segment < wasm_segment_count(*module),
        at < wasm_segment_len(*module, segment as int),
    ensures
        out == wasm_segment_member(*module, segment as int, at as int),
{
    module.elements_section().map_or(0, |section| section.entries()[segment].members()[at])
}

/// What `Module::start_section` gives for `module`.
#[verifier::external_body]
fn start_function(module: &Module) -> (out: Option<u32>)
    ensures
        out == wasm_start_function(*module),
{
    module.start_section()
}

/// Whether a function index can move up by one.
pub open spec fn spec_can_shift(index: Option<u32>) -> bool {
    index matches Some(function) ==> function < u32::MAX
}

/// Whether every `call` of the body `body` of `module` has an index that can
/// move up by one.
pub open spec fn spec_body_can_shift(module: Module, body: int) -> bool {
    forall|at: int|
        0 <= at < wasm_body_len(module, body) ==> spec_can_shift(
            #[trigger] wasm_call_target(module, body, at),
        )
}

/// Whether every member of the element segment `segment` of `module` can move
/// up by one.
pub open spec fn spec_segment_can_shift(module: Module, segment: int) -> bool {
    forall|at: int|
        0 <= at < wasm_segment_len(module, segment) ==> #[trigger] wasm_segment_member(
            module,
            segment,
            at,
        ) < u32::MAX
}

/// Whether every function index that `module` holds can move up by one: those
/// of its `call` instructions, its exports, its element segments and its start
/// section.
pub open spec fn spec_indices_can_shift(module: Module) -> bool {
    &&& forall|body: int|
        0 <= body < wasm_body_count(module) ==> #[trigger] spec_body_can_shift(module, body)
    &&& forall|entry: int|
        0 <= entry < wasm_export_count(module) ==> spec_can_shift(
            #[trigger] wasm_export_function(module, entry),
        )
    &&& forall|segment: int|
        0 <= segment < wasm_segment_count(module) ==> #[trigger] spec_segment_can_shift(
            module,
            segment,
        )
    &&& spec_can_shift(wasm_start_function(module))
}

/// Whether a function index can move up by one.
fn can_shift(index: Option<u32>) -> (out: bool)
    ensures
        out == spec_can_shift(index),
{
    match index {
        Some(function) => function < 0xffff_ffff,
        None => true,
    }
}

/// Whether every `call` of one body of `module` can move up by one.
fn body_can_shift(module: &Module, body: usize) -> (out: bool)
    requires
        body < wasm_body_count(*module),
    ensures
        out == spec_body_can_shift(*module, body as int),
{
    let len = body_len(module, body);
    let mut at: usize = 0;
    while at < len
        invariant
            at <= len,
            len == wasm_body_len(*module, body as int),
            body < wasm_body_count(*module),
            forall|k: int|
                0 <= k < at ==> spec_can_shift(#[trigger] wasm_call_target(*module, body as int, k)),
        decreases len - at,
    {
        if !can_shift(call_target(module, body, at)) {
            return false;
        }
        at = at + 1;
    }
    true
}

/// Whether every member of one element segment of `module` can move up by one.
fn segment_can_shift(module: &Module, segment: usize) -> (out: bool)
    requires
        segment < wasm_segment_count(*module),
    ensures
        out == spec_segment_can_shift(*module, segment as int),
{
    let len = segment_len(module, segment);
    let mut at: usize = 0;
    while at < len
        invariant
            at <= len,
            len == wasm_segment_len(*module, segment as int),
            segment < wasm_segment_count(*module),
            forall|k: int|
                0 <= k < at ==> #[trigger] wasm_segment_member(*module, segment as int, k)
                    < u32::MAX,
        decreases len - at,
    {
        if segment_member(module, segment, at) == 0xffff_ffff {
            return false;
        }
        at = at + 1;
    }
    true
}

/// Whether every function index that `module` holds can move up by one.
pub fn indices_can_shift(module: &Module) -> (out: bool)
    ensures
        out == spec_indices_can_shift(*module),
{
    let bodies = body_count(module);
    let mut body: usize = 0;
    while body < bodies
        invariant
            body <= bodies,
            bodies == wasm_body_count(*module),
            forall|k: int| 0 <= k < body ==> #[trigger] spec_body_can_shift(*module, k),
        decreases bodies - body,
    {
        if !body_can_shift(module, body) {
            return false;
        }
        body = body + 1;
    }
    let exports = export_count(module);
    let mut entry: usize = 0;
    while entry < exports
        invariant
            entry <= exports,
            exports == wasm_export_count(*module),
            forall|k: int|
                0 <= k < entry ==> spec_can_shift(#[trigger] wasm_export_function(*module, k)),
        decreases exports - entry,
    {
        if !can_shift(export_function(module, entry)) {
            return false;
        }
        entry = entry + 1;
    }
    let segments = segment_count(module);
    let mut segment: usize = 0;
    while segment < segments
        invariant
            segment <= segments,
            segments == wasm_segment_count(*module),
            forall|k: int| 0 <= k < segment ==> #[trigger] spec_segment_can_shift(*module, k),
        decreases segments - segment,
    {
        if !segment_can_shift(module, segment) {
            return false;
        }
        segment = segment + 1;
    }
    can_shift(start_function(module))
}

} // verus!
