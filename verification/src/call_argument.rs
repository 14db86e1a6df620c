//! Arguments and return values of calls between contracts, and the proxy
//! through which a contract calls another.
//!
//! Every value that crosses the boundary has a fixed size. That keeps reading
//! a field a matter of a constant offset, and a call a matter of copying bytes.

use crate::host::Invocation;
use crate::layout::{padded, spec_padded, zeros, FixedLayout};
use crate::types::Address;
use core::marker::PhantomData;
use vstd::prelude::*;
use vstd::slice::slice_to_vec;

verus! {

/// What an entry point does with the argument of the current call, before it
/// runs the method.
#[derive(Clone, Copy, PartialEq, Eq, Debug)]
pub enum CallArgumentPlan {
    /// The argument does not fit the buffer: the activation traps, and the host
    /// is asked for nothing.
    Trap,
    /// The host is asked, once, for `length` bytes of the argument.
    Read { length: usize },
}

/// What to do with an argument of `calldata_len` bytes and a buffer of `size`
/// bytes: read it where it fits, trap where it is longer or its length is
/// negative.
pub open spec fn spec_call_argument_plan(calldata_len: int, size: nat) -> CallArgumentPlan {
    if 0 <= calldata_len <= size {
        CallArgumentPlan::Read { length: calldata_len as usize }
    } else {
        CallArgumentPlan::Trap
    }
}

/// An argument longer than the buffer makes the activation trap: nothing is
/// read from the host, not one byte is copied, and no buffer is made.
pub proof fn lemma_oversized_call_argument_traps(calldata_len: int, size: nat)
    requires
        calldata_len > size,
    ensures
        spec_call_argument_plan(calldata_len, size) is Trap,
        !(spec_call_argument_plan(calldata_len, size) is Read),
{
}

/// A buffer of exactly `SZ` bytes that holds a value of type `T`.
///
/// `SZ` is the number of bytes of every value of `T`: no buffer of another
/// size is ever made. A buffer is owned by the call that made it.
pub struct BackedType<T: FixedLayout, const SZ: usize> {
    backing: [u8; SZ],
    x: PhantomData<T>,
}

impl<T: FixedLayout, const SZ: usize> View for BackedType<T, SZ> {
    type V = Seq<u8>;

    closed spec fn view(&self) -> Seq<u8> {
        self.backing@
    }
}

impl<T: FixedLayout, const SZ: usize> BackedType<T, SZ> {
    #[verifier::type_invariant]
    spec fn sized(self) -> bool {
        SZ == T::spec_size()
    }

    /// Whether `SZ` is the size of `T`, as every buffer requires.
    pub fn size_matches() -> (out: bool)
        ensures
            out == (SZ == T::spec_size()),
    {
        T::size() == SZ
    }

    /// What to do with a call's argument of `calldata_len` bytes: read it
    /// where it fits the buffer, trap where it does not.
    pub fn call_argument_plan(calldata_len: i32) -> (out: CallArgumentPlan)
        ensures
            out == spec_call_argument_plan(calldata_len as int, SZ as nat),
            out is Read <==> 0 <= calldata_len <= SZ,
    {
        if calldata_len >= 0 && calldata_len as usize <= SZ {
            CallArgumentPlan::Read { length: calldata_len as usize }
        } else {
            CallArgumentPlan::Trap
        }
    }

    /// A zero-filled buffer.
    pub fn new() -> (out: Self)
        requires
            SZ == T::spec_size(),
        ensures
            out@ == zeros(SZ as nat),
    {
        let out = Self { backing: [0u8;SZ], x: PhantomData };
        assert(out.backing@ =~= zeros(SZ as nat));
        out
    }

    /// The buffer that holds the argument of the current call: zero-filled,
    /// then the first `calldata_len` bytes of `calldata`, the call's argument
    /// bytes as the host hands them over, copied to its start.
    ///
    /// An argument longer than the buffer breaks the protocol: the contract
    /// traps before anything is copied, and never gets here.
    pub fn new_from_calldata(calldata: &[u8], calldata_len: i32) -> (out: Self)
        requires
            SZ == T::spec_size(),
            spec_call_argument_plan(calldata_len as int, SZ as nat) is Read,
        ensures
            out@ == spec_padded(calldata@, calldata_len as nat, SZ as nat),
    {
        Self { backing: padded::<SZ>(calldata, calldata_len as usize), x: PhantomData }
    }

    /// The buffer that holds the return value of a call: zero-filled, then
    /// what the host wrote of the return value, `reply`, copied to its start.
    pub fn new_from_return(reply: &[u8]) -> (out: Self)
        requires
            SZ == T::spec_size(),
        ensures
            out@ == spec_padded(reply@, SZ as nat, SZ as nat),
            reply@.len() == SZ ==> out@ == reply@,
    {
        let out = Self { backing: padded::<SZ>(reply, SZ), x: PhantomData };
        assert(reply@.len() == SZ ==> out.backing@ =~= reply@);
        out
    }

    /// The value that the buffer holds.
    pub fn get(&self) -> (out: T)
        ensures
            out == T::spec_decode(self@),
    {
        proof {
            use_type_invariant(self);
        }
        T::decode(self.backing.as_slice())
    }

    /// Makes the buffer hold `value`.
    pub fn set(&mut self, value: &T)
        ensures
            final(self)@ == value.spec_encode(),
    {
        proof {
            use_type_invariant(&*self);
            T::lemma_round_trip(*value);
        }
        let bytes = value.encode();
        self.backing = padded::<SZ>(bytes.as_slice(), SZ);
        assert(self.backing@ =~= value.spec_encode());
    }

    /// The bytes of the buffer.
    pub fn get_backing(&self) -> (out: &[u8; SZ])
        ensures
            out@ == self@,
    {
        &self.backing
    }

    /// The number of bytes of the buffer.
    pub fn get_backing_len(&self) -> (out: usize)
        ensures
            out == SZ,
            out == self@.len(),
            out == T::spec_size(),
    {
        proof {
            use_type_invariant(self);
        }
        SZ
    }
}

/// A fresh buffer reads as the all-zero value of its type: the value that
/// `get` gives for a buffer as `new` makes it is written as zero bytes only.
pub proof fn lemma_new_reads_zero<T: FixedLayout, const SZ: usize>(fresh: BackedType<T, SZ>)
    requires
        SZ == T::spec_size(),
        fresh@ == zeros(SZ as nat),
    ensures
        T::spec_decode(fresh@).spec_encode() == zeros(SZ as nat),
{
    T::lemma_zero();
}

/// Stands for the contract at one address in the calls that another contract
/// makes to it.
pub struct ContractProxy<'a> {
    addr: &'a Address,
}

impl<'a> ContractProxy<'a> {
    /// The address of the contract that the proxy stands for.
    pub closed spec fn target(&self) -> Address {
        *self.addr
    }

    /// The proxy of the contract at `addr`.
    pub fn new(addr: &'a Address) -> (out: Self)
        ensures
            out.target() == *addr,
    {
        Self { addr }
    }

    /// The call of the method `methodname` with the argument `arg` and a return
    /// value of type `R`. `methodname` is the method's dispatch identifier.
    ///
    /// A return buffer of another size than `R` breaks the protocol: the
    /// contract traps before it gets here.
    pub fn call<T: FixedLayout, const TSIZE: usize, R: FixedLayout, const RSIZE: usize>(
        &self,
        methodname: i32,
        arg: &BackedType<T, TSIZE>,
    ) -> (out: Invocation)
        requires
            RSIZE == R::spec_size(),
        ensures
            out.target == self.target(),
            out.method_id == methodname,
            out.argument is Some,
            out.argument->0@ == arg@,
            out.argument->0@.len() == T::spec_size(),
            out.return_length == Some(RSIZE),
    {
        let argument = copy_backing(arg);
        Invocation {
            target: *self.addr,
            method_id: methodname,
            argument: Some(argument),
            return_length: Some(RSIZE),
        }
    }

    /// The call of the method `methodname` with the argument `arg` and without
    /// a return value.
    pub fn call_noret<T: FixedLayout, const TSIZE: usize>(
        &self,
        methodname: i32,
        arg: &BackedType<T, TSIZE>,
    ) -> (out: Invocation)
        ensures
            out.target == self.target(),
            out.method_id == methodname,
            out.argument is Some,
            out.argument->0@ == arg@,
            out.argument->0@.len() == T::spec_size(),
            out.return_length is None,
    {
        let argument = copy_backing(arg);
        Invocation {
            target: *self.addr,
            method_id: methodname,
            argument: Some(argument),
            return_length: None,
        }
    }

    /// The call of the method `methodname` without an argument and with a
    /// return value of type `R`.
    ///
    /// A return buffer of another size than `R` breaks the protocol: the
    /// contract traps before it gets here.
    pub fn call_noargs<R: FixedLayout, const RSIZE: usize>(&self, methodname: i32) -> (out:
        Invocation)
        requires
            RSIZE == R::spec_size(),
        ensures
            out.target == self.target(),
            out.method_id == methodname,
            out.argument is None,
            out.return_length == Some(RSIZE),
    {
        Invocation {
            target: *self.addr,
            method_id: methodname,
            argument: None,
            return_length: Some(RSIZE),
        }
    }

    /// The call of the method `methodname` without an argument and without a
    /// return value.
    pub fn call_noargs_noret(&self, methodname: i32) -> (out: Invocation)
        ensures
            out.target == self.target(),
            out.method_id == methodname,
            out.argument is None,
            out.return_length is None,
    {
        Invocation { target: *self.addr, method_id: methodname, argument: None, return_length: None }
    }
}

/// The bytes of `arg`, copied out of its buffer.
fn copy_backing<T: FixedLayout, const SZ: usize>(arg: &BackedType<T, SZ>) -> (out: Vec<u8>)
    ensures
        out@ == arg@,
        out@.len() == T::spec_size(),
{
    proof {
        use_type_invariant(arg);
    }
    slice_to_vec(arg.get_backing().as_slice())
}

} // verus!
