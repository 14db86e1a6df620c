//! The gas cost model: the weight charged for executing one instruction.
//!
//! The weights are loosely modelled on the instruction schedule of Substrate's
//! contracts pallet; the values are this platform's own.

use crate::opcode::Opcode;
use vstd::prelude::*;

verus! {

/// What growing linear memory costs, on top of the weight of the `memory.grow`
/// instruction itself.
#[derive(Clone, Copy, PartialEq, Eq, Debug)]
pub enum GrowthCost {
    /// No charge per page.
    Free,
    /// The given charge for each page that the memory grows by. The charge is
    /// not zero: no charge is `Free`.
    Linear(u32),
}

/// The weight of `call_indirect`. No contract built with the SDK needs the
/// instruction, so it is priced far above an ordinary call.
pub const CALL_INDIRECT_COST: u32 = 100;

/// The largest weight that can be represented.
pub const MAX_WEIGHT: u32 = 0xffff_ffff;

/// `cost`, or the largest representable weight where `cost` exceeds it.
pub open spec fn saturate(cost: int) -> u32 {
    if cost > MAX_WEIGHT {
        MAX_WEIGHT
    } else if cost < 0 {
        0
    } else {
        cost as u32
    }
}

/// The weight of each instruction class. 32-bit and 64-bit integer operations
/// share the weight named after the 64-bit one.
pub struct DefaultRules {
    pub i64const: u32,
    pub i64load: u32,
    pub i64store: u32,
    pub select: u32,
    pub if_block: u32,
    pub br: u32,
    pub br_if: u32,
    pub br_table: u32,
    pub br_table_per_entry: u32,
    pub call: u32,
    pub call_indirect: u32,
    pub call_indirect_per_param: u32,
    pub local_get: u32,
    pub local_set: u32,
    pub local_tee: u32,
    pub global_get: u32,
    pub global_set: u32,
    pub memory_current: u32,
    pub memory_grow: u32,
    pub i64clz: u32,
    pub i64ctz: u32,
    pub i64popcnt: u32,
    pub i64eqz: u32,
    pub i64extendsi32: u32,
    pub i64extendui32: u32,
    pub i32wrapi64: u32,
    pub i64eq: u32,
    pub i64ne: u32,
    pub i64lts: u32,
    pub i64ltu: u32,
    pub i64gts: u32,
    pub i64gtu: u32,
    pub i64les: u32,
    pub i64leu: u32,
    pub i64ges: u32,
    pub i64geu: u32,
    pub i64add: u32,
    pub i64sub: u32,
    pub i64mul: u32,
    pub i64divs: u32,
    pub i64divu: u32,
    pub i64rems: u32,
    pub i64remu: u32,
    pub i64and: u32,
    pub i64or: u32,
    pub i64xor: u32,
    pub i64shl: u32,
    pub i64shrs: u32,
    pub i64shru: u32,
    pub i64rotl: u32,
    pub i64rotr: u32,
}

impl DefaultRules {
    /// The reference weight table.
    pub open spec fn spec_default() -> DefaultRules {
        DefaultRules {
            i64const: 1,
            i64load: 1,
            i64store: 1,
            select: 1,
            if_block: 1,
            br: 1,
            br_if: 2,
            br_table: 2,
            br_table_per_entry: 1,
            call: 5,
            call_indirect: 5,
            call_indirect_per_param: 1,
            local_get: 1,
            local_set: 1,
            local_tee: 1,
            global_get: 1,
            global_set: 1,
            memory_current: 1,
            memory_grow: 10,
            i64clz: 1,
            i64ctz: 1,
            i64popcnt: 3,
            i64eqz: 2,
            i64extendsi32: 1,
            i64extendui32: 1,
            i32wrapi64: 1,
            i64eq: 2,
            i64ne: 2,
            i64lts: 2,
            i64ltu: 2,
            i64gts: 2,
            i64gtu: 2,
            i64les: 2,
            i64leu: 2,
            i64ges: 2,
            i64geu: 2,
            i64add: 2,
            i64sub: 2,
            i64mul: 3,
            i64divs: 3,
            i64divu: 3,
            i64rems: 3,
            i64remu: 3,
            i64and: 2,
            i64or: 2,
            i64xor: 2,
            i64shl: 2,
            i64shrs: 2,
            i64shru: 2,
            i64rotl: 2,
            i64rotr: 2,
        }
    }

    /// The reference weight table. Its values are provisional: none of them
    /// comes from a benchmark.
    pub fn default() -> (out: Self)
        ensures
            out == Self::spec_default(),
    {
        Self {
            i64const: 1,
            i64load: 1,
            i64store: 1,
            select: 1,
            if_block: 1,
            br: 1,
            br_if: 2,
            br_table: 2,
            br_table_per_entry: 1,
            call: 5,
            call_indirect: 5,
            call_indirect_per_param: 1,
            local_get: 1,
            local_set: 1,
            local_tee: 1,
            global_get: 1,
            global_set: 1,
            memory_current: 1,
            memory_grow: 10,
            i64clz: 1,
            i64ctz: 1,
            i64popcnt: 3,
            i64eqz: 2,
            i64extendsi32: 1,
            i64extendui32: 1,
            i32wrapi64: 1,
            i64eq: 2,
            i64ne: 2,
            i64lts: 2,
            i64ltu: 2,
            i64gts: 2,
            i64gtu: 2,
            i64les: 2,
            i64leu: 2,
            i64ges: 2,
            i64geu: 2,
            i64add: 2,
            i64sub: 2,
            i64mul: 3,
            i64divs: 3,
            i64divu: 3,
            i64rems: 3,
            i64remu: 3,
            i64and: 2,
            i64or: 2,
            i64xor: 2,
            i64shl: 2,
            i64shrs: 2,
            i64shru: 2,
            i64rotl: 2,
            i64rotr: 2,
        }
    }

    /// The weight of a branch table with `targets` entries: the base weight plus
    /// the per-entry weight for each entry, capped at the largest weight.
    pub open spec fn spec_br_table_cost(&self, targets: usize) -> u32 {
        saturate(self.br_table + self.br_table_per_entry * targets)
    }

    /// The weight of `instruction`, or `None` where the model has none for it:
    /// every floating-point instruction, and the conversions and
    /// reinterpretations that involve one.
    pub open spec fn spec_opcode_cost(&self, opcode: Opcode) -> Option<u32> {
        match opcode {
            Opcode::End
            | Opcode::Unreachable
            | Opcode::Return
            | Opcode::Else => Some(0),
            Opcode::I32Const
            | Opcode::I64Const
            | Opcode::Block
            | Opcode::Loop
            | Opcode::Nop
            | Opcode::Drop => Some(self.i64const),
            Opcode::I32Load
            | Opcode::I32Load8S
            | Opcode::I32Load8U
            | Opcode::I32Load16S
            | Opcode::I32Load16U
            | Opcode::I64Load
            | Opcode::I64Load8S
            | Opcode::I64Load8U
            | Opcode::I64Load16S
            | Opcode::I64Load16U
            | Opcode::I64Load32S
            | Opcode::I64Load32U => Some(self.i64load),
            Opcode::I32Store
            | Opcode::I32Store8
            | Opcode::I32Store16
            | Opcode::I64Store
            | Opcode::I64Store8
            | Opcode::I64Store16
            | Opcode::I64Store32 => Some(self.i64store),
            Opcode::Select => Some(self.select),
            Opcode::If => Some(self.if_block),
            Opcode::Br => Some(self.br),
            Opcode::BrIf => Some(self.br_if),
            Opcode::BrTable { targets } => Some(self.spec_br_table_cost(targets)),
            Opcode::Call => Some(self.call),
            Opcode::CallIndirect => Some(CALL_INDIRECT_COST),
            Opcode::GetLocal => Some(self.local_get),
            Opcode::SetLocal => Some(self.local_set),
            Opcode::TeeLocal => Some(self.local_tee),
            Opcode::GetGlobal => Some(self.global_get),
            Opcode::SetGlobal => Some(self.global_set),
            Opcode::CurrentMemory => Some(self.memory_current),
            Opcode::GrowMemory => Some(self.memory_grow),
            Opcode::I32Clz | Opcode::I64Clz => Some(self.i64clz),
            Opcode::I32Ctz | Opcode::I64Ctz => Some(self.i64ctz),
            Opcode::I32Popcnt | Opcode::I64Popcnt => Some(self.i64popcnt),
            Opcode::I32Eqz | Opcode::I64Eqz => Some(self.i64eqz),
            Opcode::I32Eq | Opcode::I64Eq => Some(self.i64eq),
            Opcode::I32Ne | Opcode::I64Ne => Some(self.i64ne),
            Opcode::I32LtS | Opcode::I64LtS => Some(self.i64lts),
            Opcode::I32LtU | Opcode::I64LtU => Some(self.i64ltu),
            Opcode::I32GtS | Opcode::I64GtS => Some(self.i64gts),
            Opcode::I32GtU | Opcode::I64GtU => Some(self.i64gtu),
            Opcode::I32LeS | Opcode::I64LeS => Some(self.i64les),
            Opcode::I32LeU | Opcode::I64LeU => Some(self.i64leu),
            Opcode::I32GeS | Opcode::I64GeS => Some(self.i64ges),
            Opcode::I32GeU | Opcode::I64GeU => Some(self.i64geu),
            Opcode::I32Add | Opcode::I64Add => Some(self.i64add),
            Opcode::I32Sub | Opcode::I64Sub => Some(self.i64sub),
            Opcode::I32Mul | Opcode::I64Mul => Some(self.i64mul),
            Opcode::I32DivS | Opcode::I64DivS => Some(self.i64divs),
            Opcode::I32DivU | Opcode::I64DivU => Some(self.i64divu),
            Opcode::I32RemS | Opcode::I64RemS => Some(self.i64rems),
            Opcode::I32RemU | Opcode::I64RemU => Some(self.i64remu),
            Opcode::I32And | Opcode::I64And => Some(self.i64and),
            Opcode::I32Or | Opcode::I64Or => Some(self.i64or),
            Opcode::I32Xor | Opcode::I64Xor => Some(self.i64xor),
            Opcode::I32Shl | Opcode::I64Shl => Some(self.i64shl),
            Opcode::I32ShrS | Opcode::I64ShrS => Some(self.i64shrs),
            Opcode::I32ShrU | Opcode::I64ShrU => Some(self.i64shru),
            Opcode::I32Rotl | Opcode::I64Rotl => Some(self.i64rotl),
            Opcode::I32Rotr | Opcode::I64Rotr => Some(self.i64rotr),
            Opcode::I64ExtendSI32 => Some(self.i64extendsi32),
            Opcode::I64ExtendUI32 => Some(self.i64extendui32),
            Opcode::I32WrapI64 => Some(self.i32wrapi64),
            _ => None,
        }
    }

    /// The weight of a branch table with `targets` entries.
    fn br_table_cost(&self, targets: usize) -> (out: u32)
        ensures
            out == self.spec_br_table_cost(targets),
    {
        let entries: u64 = if targets > 0xffff_ffff {
            0xffff_ffff
        } else {
            targets as u64
        };
        assert(self.br_table_per_entry * entries <= 0xffff_ffff * 0xffff_ffff) by (nonlinear_arith)
            requires
                0 <= self.br_table_per_entry <= 0xffff_ffff,
                0 <= entries <= 0xffff_ffff,
        ;
        let product: u64 = (self.br_table_per_entry as u64) * entries;
        let per_entries: u32 = if product > 0xffff_ffff {
            MAX_WEIGHT
        } else {
            product as u32
        };
        proof {
            let exact = self.br_table_per_entry * targets;
            if targets > 0xffff_ffff {
                if self.br_table_per_entry == 0 {
                    assert(exact == 0);
                    assert(product == 0);
                } else {
                    assert(exact >= targets) by (nonlinear_arith)
                        requires
                            exact == self.br_table_per_entry * targets,
                            self.br_table_per_entry >= 1,
                            targets >= 0,
                    ;
                    assert(product >= entries) by (nonlinear_arith)
                        requires
                            product == self.br_table_per_entry * entries,
                            self.br_table_per_entry >= 1,
                            entries >= 0,
                    ;
                }
            }
        }
        self.br_table.saturating_add(per_entries)
    }

    /// The weight of `instruction`, or `None` where no weight is defined for it.
    /// An instruction without a weight must never run unmetered: whoever
    /// instruments a module rejects the module on `None`.
    pub fn opcode_cost(&self, opcode: &Opcode) -> (out: Option<u32>)
        ensures
            out == self.spec_opcode_cost(*opcode),
    {
        match *opcode {
            Opcode::End
            | Opcode::Unreachable
            | Opcode::Return
            | Opcode::Else => Some(0),
            Opcode::I32Const
            | Opcode::I64Const
            | Opcode::Block
            | Opcode::Loop
            | Opcode::Nop
            | Opcode::Drop => Some(self.i64const),
            Opcode::I32Load
            | Opcode::I32Load8S
            | Opcode::I32Load8U
            | Opcode::I32Load16S
            | Opcode::I32Load16U
            | Opcode::I64Load
            | Opcode::I64Load8S
            | Opcode::I64Load8U
            | Opcode::I64Load16S
            | Opcode::I64Load16U
            | Opcode::I64Load32S
            | Opcode::I64Load32U => Some(self.i64load),
            Opcode::I32Store
            | Opcode::I32Store8
            | Opcode::I32Store16
            | Opcode::I64Store
            | Opcode::I64Store8
            | Opcode::I64Store16
            | Opcode::I64Store32 => Some(self.i64store),
            Opcode::Select => Some(self.select),
            Opcode::If => Some(self.if_block),
            Opcode::Br => Some(self.br),
            Opcode::BrIf => Some(self.br_if),
            Opcode::BrTable { targets } => Some(self.br_table_cost(targets)),
            Opcode::Call => Some(self.call),
            Opcode::CallIndirect => Some(CALL_INDIRECT_COST),
            Opcode::GetLocal => Some(self.local_get),
            Opcode::SetLocal => Some(self.local_set),
            Opcode::TeeLocal => Some(self.local_tee),
            Opcode::GetGlobal => Some(self.global_get),
            Opcode::SetGlobal => Some(self.global_set),
            Opcode::CurrentMemory => Some(self.memory_current),
            Opcode::GrowMemory => Some(self.memory_grow),
            Opcode::I32Clz | Opcode::I64Clz => Some(self.i64clz),
            Opcode::I32Ctz | Opcode::I64Ctz => Some(self.i64ctz),
            Opcode::I32Popcnt | Opcode::I64Popcnt => Some(self.i64popcnt),
            Opcode::I32Eqz | Opcode::I64Eqz => Some(self.i64eqz),
            Opcode::I32Eq | Opcode::I64Eq => Some(self.i64eq),
            Opcode::I32Ne | Opcode::I64Ne => Some(self.i64ne),
            Opcode::I32LtS | Opcode::I64LtS => Some(self.i64lts),
            Opcode::I32LtU | Opcode::I64LtU => Some(self.i64ltu),
            Opcode::I32GtS | Opcode::I64GtS => Some(self.i64gts),
            Opcode::I32GtU | Opcode::I64GtU => Some(self.i64gtu),
            Opcode::I32LeS | Opcode::I64LeS => Some(self.i64les),
            Opcode::I32LeU | Opcode::I64LeU => Some(self.i64leu),
            Opcode::I32GeS | Opcode::I64GeS => Some(self.i64ges),
            Opcode::I32GeU | Opcode::I64GeU => Some(self.i64geu),
            Opcode::I32Add | Opcode::I64Add => Some(self.i64add),
            Opcode::I32Sub | Opcode::I64Sub => Some(self.i64sub),
            Opcode::I32Mul | Opcode::I64Mul => Some(self.i64mul),
            Opcode::I32DivS | Opcode::I64DivS => Some(self.i64divs),
            Opcode::I32DivU | Opcode::I64DivU => Some(self.i64divu),
            Opcode::I32RemS | Opcode::I64RemS => Some(self.i64rems),
            Opcode::I32RemU | Opcode::I64RemU => Some(self.i64remu),
            Opcode::I32And | Opcode::I64And => Some(self.i64and),
            Opcode::I32Or | Opcode::I64Or => Some(self.i64or),
            Opcode::I32Xor | Opcode::I64Xor => Some(self.i64xor),
            Opcode::I32Shl | Opcode::I64Shl => Some(self.i64shl),
            Opcode::I32ShrS | Opcode::I64ShrS => Some(self.i64shrs),
            Opcode::I32ShrU | Opcode::I64ShrU => Some(self.i64shru),
            Opcode::I32Rotl | Opcode::I64Rotl => Some(self.i64rotl),
            Opcode::I32Rotr | Opcode::I64Rotr => Some(self.i64rotr),
            Opcode::I64ExtendSI32 => Some(self.i64extendsi32),
            Opcode::I64ExtendUI32 => Some(self.i64extendui32),
            Opcode::I32WrapI64 => Some(self.i32wrapi64),
            _ => None,
        }
    }

    /// What growing linear memory costs: nothing per page. This is provisional,
    /// until `memory.grow` has been benchmarked with the largest number of pages
    /// that a module may ask for.
    pub fn growth_cost(&self) -> (out: GrowthCost)
        ensures
            out == GrowthCost::Free,
    {
        GrowthCost::Free
    }
}

/// Under the reference table a branch table with `targets` entries costs the
/// base weight 2 plus 1 for each entry, and the largest representable weight
/// where that sum exceeds it.
pub proof fn lemma_reference_br_table_cost(targets: usize)
    ensures
        DefaultRules::spec_default().spec_opcode_cost(Opcode::BrTable { targets })
            == Some(saturate(2 + targets)),
        2 + targets <= MAX_WEIGHT ==> saturate(2 + targets) == 2 + targets,
        2 + targets > MAX_WEIGHT ==> saturate(2 + targets) == MAX_WEIGHT,
{
}

/// Under every weight table a branch table with `targets` entries costs the
/// base weight plus the per-entry weight for each entry, and the largest
/// representable weight where that sum exceeds it: the weight saturates, it
/// never wraps.
pub proof fn lemma_br_table_cost(rules: DefaultRules, targets: usize)
    ensures
        rules.spec_opcode_cost(Opcode::BrTable { targets }) is Some,
        rules.br_table + rules.br_table_per_entry * targets <= MAX_WEIGHT ==> rules.spec_opcode_cost(
            Opcode::BrTable { targets },
        )->0 == rules.br_table + rules.br_table_per_entry * targets,
        rules.br_table + rules.br_table_per_entry * targets > MAX_WEIGHT ==> rules.spec_opcode_cost(
            Opcode::BrTable { targets },
        )->0 == MAX_WEIGHT,
{
    assert(0 <= rules.br_table_per_entry * targets) by (nonlinear_arith)
        requires
            0 <= targets,
            0 <= rules.br_table_per_entry,
    ;
}

} // verus!
