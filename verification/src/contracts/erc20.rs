//! A token contract in outline: one method for each shape of call, and the
//! interface through which another contract calls them.

use crate::call_argument::{BackedType, ContractProxy};
use crate::dispatch::{method_id, spec_method_id};
use crate::host::Invocation;
use vstd::prelude::*;

verus! {

/// A method with an argument and without a return value. It does nothing.
pub fn noret_args(calldata_len: &i32) {
}

/// A method with an argument and a return value. It returns zero.
pub fn ret_args(calldata_len: &i32) -> (out: i64)
    ensures
        out == 0,
{
    0
}

/// A method without an argument and with a return value. It returns zero.
pub fn ret_noargs() -> (out: i64)
    ensures
        out == 0,
{
    0
}

/// A method without an argument and without a return value. It does nothing.
pub fn noret_noargs() {
}

/// The token contract at some address, as its callers see it.
pub struct InterfaceERC20<'a> {
    proxy: ContractProxy<'a>,
}

impl<'a> InterfaceERC20<'a> {
    /// The proxy that the calls go through.
    pub closed spec fn proxy(&self) -> ContractProxy<'a> {
        self.proxy
    }

    /// The interface of the contract that `proxy` stands for.
    pub fn new(proxy: ContractProxy<'a>) -> (out: Self)
        ensures
            out.proxy() == proxy,
    {
        Self { proxy }
    }

    /// The call of `noret_args` with the argument `arg`.
    pub fn noret_args(&self, arg: &BackedType<i32, 4>) -> (out: Invocation)
        ensures
            out.target == self.proxy().target(),
            out.method_id == spec_method_id("noret_args"@),
            out.argument is Some,
            out.argument->0@ == arg@,
            out.return_length is None,
    {
        self.proxy.call_noret(method_id("noret_args"), arg)
    }

    /// The call of `ret_args` with the argument `arg`.
    pub fn ret_args(&self, arg: &BackedType<i32, 4>) -> (out: Invocation)
        ensures
            out.target == self.proxy().target(),
            out.method_id == spec_method_id("ret_args"@),
            out.argument is Some,
            out.argument->0@ == arg@,
            out.return_length == Some(8usize),
    {
        self.proxy.call::<i32, 4, i64, 8>(method_id("ret_args"), arg)
    }

    /// The call of `ret_noargs`.
    pub fn ret_noargs(&self) -> (out: Invocation)
        ensures
            out.target == self.proxy().target(),
            out.method_id == spec_method_id("ret_noargs"@),
            out.argument is None,
            out.return_length == Some(8usize),
    {
        self.proxy.call_noargs::<i64, 8>(method_id("ret_noargs"))
    }

    /// The call of `noret_noargs`.
    pub fn noret_noargs(&self) -> (out: Invocation)
        ensures
            out.target == self.proxy().target(),
            out.method_id == spec_method_id("noret_noargs"@),
            out.argument is None,
            out.return_length is None,
    {
        self.proxy.call_noargs_noret(method_id("noret_noargs"))
    }
}

} // verus!
