//! A contract that exercises the log and a call to another contract.

use crate::call_argument::{BackedType, ContractProxy};
use crate::contracts::erc20::InterfaceERC20;
use crate::dispatch::{method_id, spec_method_id};
use crate::host::{log_generic_reprc, log_i32, Invocation};
use crate::layout::{zeros, FixedLayout};
use crate::types::Address;
use vstd::prelude::*;
use vstd::slice::slice_subrange;

verus! {

/// An argument with three fields, laid out as C lays out a struct: the
/// address in bytes 0 to 31, `val` in bytes 32 to 35, four bytes of padding,
/// and `long_val` in bytes 40 to 47.
#[derive(Clone, Copy, Debug)]
pub struct FancyCall {
    pub addr: Address,
    pub val: i32,
    pub long_val: u64,
}

impl FixedLayout for FancyCall {
    open spec fn spec_size() -> nat {
        48
    }

    open spec fn spec_encode(&self) -> Seq<u8> {
        self.addr.spec_encode() + self.val.spec_encode() + zeros(4) + self.long_val.spec_encode()
    }

    open spec fn spec_decode(bytes: Seq<u8>) -> Self {
        FancyCall {
            addr: Address::spec_decode(bytes.subrange(0, 32)),
            val: i32::spec_decode(bytes.subrange(32, 36)),
            long_val: u64::spec_decode(bytes.subrange(40, 48)),
        }
    }

    proof fn lemma_round_trip(value: Self) {
        Address::lemma_round_trip(value.addr);
        i32::lemma_round_trip(value.val);
        u64::lemma_round_trip(value.long_val);
        let bytes = value.spec_encode();
        assert(bytes.subrange(0, 32) =~= value.addr.spec_encode());
        assert(bytes.subrange(32, 36) =~= value.val.spec_encode());
        assert(bytes.subrange(40, 48) =~= value.long_val.spec_encode());
    }

    proof fn lemma_zero() {
        Address::lemma_zero();
        i32::lemma_zero();
        u64::lemma_zero();
        let zero = Self::spec_decode(zeros(48));
        assert(zeros(48).subrange(0, 32) =~= zeros(32));
        assert(zeros(48).subrange(32, 36) =~= zeros(4));
        assert(zeros(48).subrange(40, 48) =~= zeros(8));
        assert(zero.spec_encode() =~= zeros(48));
    }

    fn size() -> (out: usize) {
        48
    }

    fn encode(&self) -> (out: Vec<u8>) {
        let mut out = self.addr.encode();
        let mut val = self.val.encode();
        let mut long_val = self.long_val.encode();
        out.append(&mut val);
        out.push(0);
        out.push(0);
        out.push(0);
        out.push(0);
        out.append(&mut long_val);
        assert(out@ =~= self.spec_encode());
        out
    }

    fn decode(bytes: &[u8]) -> (out: Self) {
        FancyCall {
            addr: Address::decode(slice_subrange(bytes, 0, 32)),
            val: i32::decode(slice_subrange(bytes, 32, 36)),
            long_val: u64::decode(slice_subrange(bytes, 40, 48)),
        }
    }
}

/// Logs the size of a `FancyCall`. The result is the record for the log.
pub fn test_log() -> (record: Vec<u8>)
    ensures
        record@ == 48i32.spec_encode(),
{
    let i: i32 = 48;
    log_i32(&i)
}

/// Calls the method `foo` of the contract at the all-zero address, with a
/// zero argument of four bytes and an empty return value. The result is the
/// call for the host.
pub fn try_macros(calldata_len: &i32) -> (out: Invocation)
    ensures
        out.target@ == zeros(32),
        out.method_id == spec_method_id("foo"@),
        out.argument is Some,
        out.argument->0@ == zeros(4),
        out.return_length == Some(0usize),
{
    let addr = Address::new();
    let proxy = ContractProxy::new(&addr);
    let arg = BackedType::<i32, 4>::new();
    proxy.call::<i32, 4, (), 0>(method_id("foo"), &arg)
}

/// Logs the three fields of `arg`, each as a record of its own. The result is
/// the three records, in the order of the fields.
pub fn try_fancy_call(arg: &FancyCall) -> (records: (Vec<u8>, Vec<u8>, Vec<u8>))
    ensures
        records.0@ == arg.addr.spec_encode(),
        records.1@ == arg.val.spec_encode(),
        records.2@ == arg.long_val.spec_encode(),
{
    (log_generic_reprc(&arg.addr), log_generic_reprc(&arg.val), log_generic_reprc(&arg.long_val))
}

/// Calls the method `noret_noargs` of the token contract at the address in
/// `arg`. The result is the call for the host.
pub fn try_call_erc20(arg: &FancyCall) -> (out: Invocation)
    ensures
        out.target == arg.addr,
        out.method_id == spec_method_id("noret_noargs"@),
        out.argument is None,
        out.return_length is None,
{
    let proxy = ContractProxy::new(&arg.addr);
    let erc20_proxy = InterfaceERC20::new(proxy);
    erc20_proxy.noret_noargs()
}

} // verus!
