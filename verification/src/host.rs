//! The host import boundary, seen from the contract.
//!
//! A contract asks three things of the host: to write a record to the log, to
//! hand over the bytes of the current call's argument, and to call a method of
//! another contract. The host does the work; this module says what it is asked
//! for. Each request is a plain value, made here and carried out by whoever
//! holds the host's imports.

use crate::layout::FixedLayout;
use crate::types::Address;
use vstd::prelude::*;

verus! {

/// A call of a method of another contract, as the host's `invoke` takes it.
///
/// The host runs the method to its end before it returns. It writes exactly
/// `return_length` bytes of return value, or the whole activation traps.
pub struct Invocation {
    /// The contract to call.
    pub target: Address,
    /// The dispatch identifier of the method.
    pub method_id: i32,
    /// The bytes of the argument, or `None` for a call without an argument,
    /// which hands the host a null argument of length zero.
    pub argument: Option<Vec<u8>>,
    /// The number of bytes of the return value, or `None` for a call without
    /// one, which hands the host a null return buffer of length zero.
    pub return_length: Option<usize>,
}

/// The record that logs `val`: its four bytes, as they lie in linear memory.
pub fn log_i32(val: &i32) -> (record: Vec<u8>)
    ensures
        record@ == val.spec_encode(),
        record@.len() == 4,
{
    proof {
        i32::lemma_round_trip(*val);
    }
    val.encode()
}

/// The record that logs `val`: all its bytes, as they lie in linear memory.
pub fn log_generic_reprc<T: FixedLayout>(val: &T) -> (record: Vec<u8>)
    ensures
        record@ == val.spec_encode(),
        record@.len() == T::spec_size(),
{
    proof {
        T::lemma_round_trip(*val);
    }
    val.encode()
}

} // verus!
