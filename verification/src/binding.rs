//! Binding a contract method to the call convention: what is generated for a
//! method that a contract offers (its exported entry point) and for a method
//! that a contract calls on another (the method of its proxy).
//!
//! A call carries at most one argument and at most one return value, each a
//! fixed-size value. A method with more arguments cannot be bound, and is
//! refused here, before anything is generated.

use crate::dispatch::{export_symbol, method_id, spec_export_symbol, spec_method_id};
use vstd::prelude::*;
use vstd::string::*;

verus! {

/// One declared argument of a method.
pub enum FnArg {
    /// The receiver, `self` in any form.
    Receiver,
    /// An argument with a declared type. `ty` is the type of the value that
    /// travels with the call: for an argument declared as a reference, the
    /// type behind the reference, never the reference itself. `by_reference`
    /// says whether the method takes the value by reference.
    Typed { ty: String, by_reference: bool },
}

/// What binding reads from a method's declaration.
pub struct Signature {
    /// The method's name.
    pub ident: String,
    /// The declared arguments, in order.
    pub inputs: Vec<FnArg>,
    /// The declared return type as written, or `None` where none is declared.
    pub output: Option<String>,
}

/// Why a method cannot be bound.
#[derive(Clone, Copy, PartialEq, Eq, Debug)]
pub enum BindingError {
    /// The method declares two arguments or more.
    TooManyArguments,
    /// The method's argument is a receiver.
    SelfArgument,
    /// The interface that the method is to join is not given as one name.
    InterfaceNotNamed,
}

/// The entry point exported for a method that a contract offers. The host
/// calls it with the length of the call's argument and nothing else.
pub struct EntryPoint {
    /// The exported symbol.
    pub export: String,
    /// The name of the method that the entry point calls.
    pub method: String,
    /// The type of the value that the entry point reads from the call's
    /// argument bytes, or `None` where the method takes no argument.
    pub argument: Option<String>,
    /// Whether the entry point hands the method a reference to the value it
    /// read, rather than the value itself.
    pub by_reference: bool,
}

/// Which of a proxy's four calls a generated method makes.
#[derive(Clone, Copy, PartialEq, Eq, Debug)]
pub enum CallShape {
    /// With an argument and a return value.
    Call,
    /// With an argument, without a return value.
    CallNoRet,
    /// Without an argument, with a return value.
    CallNoArgs,
    /// Without either.
    CallNoArgsNoRet,
}

/// The method generated on an interface's proxy for a method of the contract
/// behind it.
pub struct ProxyMethod {
    /// The interface that the method joins.
    pub interface: String,
    /// The method's name.
    pub method: String,
    /// The dispatch identifier that the method hands to the host.
    pub method_id: i32,
    /// The type of the value that travels as the argument, or `None` where
    /// there is none.
    pub argument: Option<String>,
    /// The type of the return value, or `None` where there is none.
    pub return_type: Option<String>,
}

/// Why a method with these arguments cannot be exported, or `None` where it can.
pub open spec fn spec_entry_point_error(inputs: Seq<FnArg>) -> Option<BindingError> {
    if inputs.len() >= 2 {
        Some(BindingError::TooManyArguments)
    } else if inputs.len() == 1 && inputs[0] is Receiver {
        Some(BindingError::SelfArgument)
    } else {
        None
    }
}

/// Why a method with these arguments cannot join an interface, or `None` where
/// it can. `interface_named` says whether the interface is given as one name.
pub open spec fn spec_proxy_method_error(interface_named: bool, inputs: Seq<FnArg>) -> Option<
    BindingError,
> {
    if inputs.len() >= 2 {
        Some(BindingError::TooManyArguments)
    } else if !interface_named {
        Some(BindingError::InterfaceNotNamed)
    } else if inputs.len() == 1 && inputs[0] is Receiver {
        Some(BindingError::SelfArgument)
    } else {
        None
    }
}

/// The call that a method with or without an argument and a return value makes.
pub open spec fn spec_call_shape(has_argument: bool, has_return: bool) -> CallShape {
    if has_argument && has_return {
        CallShape::Call
    } else if has_argument {
        CallShape::CallNoRet
    } else if has_return {
        CallShape::CallNoArgs
    } else {
        CallShape::CallNoArgsNoRet
    }
}

impl BindingError {
    /// The message reported for the error.
    pub fn message(&self) -> (out: &'static str)
        ensures
            out@ == match *self {
                BindingError::TooManyArguments => "currently only support at most one argument"@,
                BindingError::SelfArgument => "no self on smart contract methods"@,
                BindingError::InterfaceNotNamed => "expected identifier"@,
            },
    {
        match self {
            BindingError::TooManyArguments => "currently only support at most one argument",
            BindingError::SelfArgument => "no self on smart contract methods",
            BindingError::InterfaceNotNamed => "expected identifier",
        }
    }
}

impl ProxyMethod {
    /// Which of the proxy's four calls the method makes.
    pub fn shape(&self) -> (out: CallShape)
        ensures
            out == spec_call_shape(self.argument is Some, self.return_type is Some),
    {
        match (&self.argument, &self.return_type) {
            (Some(_), Some(_)) => CallShape::Call,
            (Some(_), None) => CallShape::CallNoRet,
            (None, Some(_)) => CallShape::CallNoArgs,
            (None, None) => CallShape::CallNoArgsNoRet,
        }
    }
}

/// The type of the only argument, or `None` where there is no argument.
fn only_argument(inputs: &Vec<FnArg>) -> (out: Option<String>)
    requires
        inputs@.len() <= 1,
        inputs@.len() == 1 ==> inputs@[0] is Typed,
    ensures
        inputs@.len() == 0 ==> out is None,
        inputs@.len() == 1 ==> out is Some && out->0@ == inputs@[0]->ty@,
{
    if inputs.len() == 0 {
        None
    } else {
        match &inputs[0] {
            FnArg::Typed { ty, .. } => Some(ty.clone()),
            FnArg::Receiver => None,
        }
    }
}

/// Whether the only argument is taken by reference; `false` where there is no
/// argument.
fn takes_reference(inputs: &Vec<FnArg>) -> (out: bool)
    requires
        inputs@.len() <= 1,
        inputs@.len() == 1 ==> inputs@[0] is Typed,
    ensures
        inputs@.len() == 0 ==> !out,
        inputs@.len() == 1 ==> out == inputs@[0]->by_reference,
{
    if inputs.len() == 0 {
        false
    } else {
        match &inputs[0] {
            FnArg::Typed { by_reference, .. } => *by_reference,
            FnArg::Receiver => false,
        }
    }
}

/// A copy of an optional type.
fn copy_type(ty: &Option<String>) -> (out: Option<String>)
    ensures
        out is Some <==> ty is Some,
        ty is Some ==> out->0@ == ty->0@,
{
    match ty {
        Some(text) => Some(text.clone()),
        None => None,
    }
}

/// The entry point to export for the method declared by `signature`.
///
/// A method with two arguments or more is refused, and so is one whose
/// argument is a receiver. Otherwise the entry point is exported under the
/// symbol made from the method's name, and reads an argument exactly where the
/// method declares one: a value of the argument's type, never a reference,
/// which it hands on by reference where the method asks for one.
pub fn scs_public_function(signature: &Signature) -> (out: Result<EntryPoint, BindingError>)
    ensures
        match out {
            Ok(entry) => {
                &&& spec_entry_point_error(signature.inputs@) is None
                &&& entry.export@ == spec_export_symbol(signature.ident@)
                &&& entry.method@ == signature.ident@
                &&& signature.inputs@.len() == 0 ==> entry.argument is None && !entry.by_reference
                &&& signature.inputs@.len() == 1 ==> entry.argument is Some
                    && entry.argument->0@ == signature.inputs@[0]->ty@ && entry.by_reference
                    == signature.inputs@[0]->by_reference
            },
            Err(error) => spec_entry_point_error(signature.inputs@) == Some(error),
        },
{
    if signature.inputs.len() >= 2 {
        return Err(BindingError::TooManyArguments);
    }
    if signature.inputs.len() == 1 {
        match &signature.inputs[0] {
            FnArg::Receiver => {
                return Err(BindingError::SelfArgument);
            },
            FnArg::Typed { .. } => {},
        }
    }
    let export = export_symbol(signature.ident.as_str());
    let argument = only_argument(&signature.inputs);
    let by_reference = takes_reference(&signature.inputs);
    Ok(EntryPoint { export, method: signature.ident.clone(), argument, by_reference })
}

/// The method to generate on the proxy of `interface` for the method declared
/// by `signature`. `interface` is `None` where what stands for the interface is
/// not one name.
///
/// A method with two arguments or more is refused; then a missing interface
/// name; then an argument that is a receiver. Otherwise the method carries the
/// dispatch identifier made from its name, and an argument and a return value
/// exactly where the declaration has them.
pub fn scs_interface_method(interface: Option<&str>, signature: &Signature) -> (out: Result<
    ProxyMethod,
    BindingError,
>)
    ensures
        match out {
            Ok(method) => {
                &&& spec_proxy_method_error(interface is Some, signature.inputs@) is None
                &&& method.interface@ == interface->0@
                &&& method.method@ == signature.ident@
                &&& method.method_id == spec_method_id(signature.ident@)
                &&& signature.inputs@.len() == 0 ==> method.argument is None
                &&& signature.inputs@.len() == 1 ==> method.argument is Some
                    && method.argument->0@ == signature.inputs@[0]->ty@
                &&& method.return_type is Some <==> signature.output is Some
                &&& signature.output is Some ==> method.return_type->0@ == signature.output->0@
            },
            Err(error) => spec_proxy_method_error(interface is Some, signature.inputs@) == Some(
                error,
            ),
        },
{
    if signature.inputs.len() >= 2 {
        return Err(BindingError::TooManyArguments);
    }
    let interface_name = match interface {
        Some(name) => String::from_str(name),
        None => {
            return Err(BindingError::InterfaceNotNamed);
        },
    };
    if signature.inputs.len() == 1 {
        match &signature.inputs[0] {
            FnArg::Receiver => {
                return Err(BindingError::SelfArgument);
            },
            FnArg::Typed { .. } => {},
        }
    }
    let argument = only_argument(&signature.inputs);
    let return_type = copy_type(&signature.output);
    Ok(
        ProxyMethod {
            interface: interface_name,
            method: signature.ident.clone(),
            method_id: method_id(signature.ident.as_str()),
            argument,
            return_type,
        },
    )
}

} // verus!
