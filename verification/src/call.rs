//! Unsent contract-call descriptors.
//!
//! A flow assembles a typed, unsent call: the resolved target address, the
//! method identifier, the ordered argument list, and whether the configured
//! signing account is attached.  The chain client then either submits the
//! call as a state-changing transaction or evaluates it read-only.

use vstd::prelude::*;
use crate::address::ChainAddress;

verus! {

/// The two deployed contracts the service talks to.
#[derive(Debug, Clone, Copy, PartialEq)]
pub enum ContractId {
    /// The multi-token asset contract.
    Asset,
    /// The token-wrapping factory contract.
    Factory,
}

/// The contract methods the service invokes; their signatures are fixed by
/// the deployed contracts.
#[derive(Debug, Clone, Copy, PartialEq)]
pub enum MethodId {
    Mint,
    SafeTransferFrom,
    SafeBatchTransferFrom,
    Unwrap,
    GetWrapped1155,
}

/// One argument of a contract call.
#[derive(Debug, Clone, PartialEq)]
pub enum CallArg {
    Addr(ChainAddress),
    Uint(u64),
    UintList(Vec<u64>),
    Data(Vec<u8>),
}

/// The mathematical value of a [`CallArg`].
#[verifier::ext_equal]
pub enum CallArgView {
    Addr(Seq<u8>),
    Uint(u64),
    UintList(Seq<u64>),
    Data(Seq<u8>),
}

impl View for CallArg {
    type V = CallArgView;

    open spec fn view(&self) -> CallArgView {
        match self {
            CallArg::Addr(a) => CallArgView::Addr(a@),
            CallArg::Uint(n) => CallArgView::Uint(*n),
            CallArg::UintList(ns) => CallArgView::UintList(ns@),
            CallArg::Data(bs) => CallArgView::Data(bs@),
        }
    }
}

/// The views of an argument list.
pub open spec fn args_view(args: Seq<CallArg>) -> Seq<CallArgView> {
    args.map_values(|a: CallArg| a@)
}

/// An unsent, fully specified contract invocation: target, method, ordered
/// arguments, and whether the configured signer is attached.
#[derive(Debug, Clone, PartialEq)]
pub struct CallDescriptor {
    pub target: ChainAddress,
    pub method: MethodId,
    pub args: Vec<CallArg>,
    pub signed: bool,
}

/// The mathematical value of a [`CallDescriptor`].
#[verifier::ext_equal]
pub struct CallDescriptorView {
    pub target: Seq<u8>,
    pub method: MethodId,
    pub args: Seq<CallArgView>,
    pub signed: bool,
}

impl View for CallDescriptor {
    type V = CallDescriptorView;

    open spec fn view(&self) -> CallDescriptorView {
        CallDescriptorView {
            target: self.target@,
            method: self.method,
            args: args_view(self.args@),
            signed: self.signed,
        }
    }
}

/// What the chain client is asked to do with a built call: send it as a
/// signed state-changing transaction, or evaluate it read-only.
#[derive(Debug, Clone, PartialEq)]
pub enum CallAction {
    Submit(CallDescriptor),
    Evaluate(CallDescriptor),
}

/// The mathematical value of a [`CallAction`].
#[verifier::ext_equal]
pub enum CallActionView {
    Submit(CallDescriptorView),
    Evaluate(CallDescriptorView),
}

impl View for CallAction {
    type V = CallActionView;

    open spec fn view(&self) -> CallActionView {
        match self {
            CallAction::Submit(c) => CallActionView::Submit(c@),
            CallAction::Evaluate(c) => CallActionView::Evaluate(c@),
        }
    }
}

/// Assembles an unsent call descriptor from its parts.
pub fn build_call(target: ChainAddress, method: MethodId, args: Vec<CallArg>, signed: bool) -> (c:
    CallDescriptor)
    ensures
        c@ == (CallDescriptorView {
            target: target@,
            method,
            args: args_view(args@),
            signed,
        }),
{
    CallDescriptor { target, method, args, signed }
}

} // verus!
