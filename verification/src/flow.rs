//! The request-level orchestration flows.
//!
//! Seven operations — mint, transfer, batch transfer, wrap, batch wrap,
//! unwrap and get-wrapped — are driven as a small state machine.  The
//! machine makes every decision: it validates the request, decides which
//! contract address must be resolved next, assembles the unsent call, and
//! shapes the response.  The surrounding program only carries its actions
//! out: it resolves deployment addresses, submits or evaluates built calls
//! over the chain client, and feeds each answer back in.
//!
//! [`begin_flow`] validates a request and names the first contract to
//! resolve; [`flow_resolved`] consumes one resolved address and either asks
//! for the next resolution or hands over the finished call.  No call is
//! handed over before every required address resolution has succeeded.

use vstd::prelude::*;
use vstd::string::*;
use vstd::utf8::*;
use crate::address::{
    decoded_hex,
    hex_digits_of,
    hex_text,
    parse_address,
    short_hex_text,
    valid_address_text,
    ChainAddress,
    TxHash,
    ValueWord,
};
use crate::asset::{
    batch_payload,
    encoded_batch,
    encoded_metadata,
    metadata_payload,
    AssetBatchTransfer,
    AssetBatchTransferView,
    AssetMint,
    AssetMintView,
    AssetTransfer,
    AssetTransferView,
};
use crate::call::{
    build_call,
    CallAction,
    CallActionView,
    CallArg,
    CallArgView,
    CallDescriptorView,
    ContractId,
    MethodId,
};
use crate::error::ApiError;
use crate::wrapper::{
    BatchWrap1155,
    BatchWrap1155View,
    GetWrapped1155,
    GetWrapped1155View,
    Unwrap1155,
    Unwrap1155View,
    Wrap1155,
    Wrap1155View,
};

verus! {

/// True of text that denotes a 20-byte address.
pub open spec fn valid_address(text: Seq<char>) -> bool {
    valid_address_text(encode_utf8(text))
}

/// The bytes denoted by address text.
pub open spec fn decoded_address(text: Seq<char>) -> Seq<u8> {
    decoded_hex(hex_digits_of(encode_utf8(text)))
}

/// One inbound request, as one of the seven operations.
#[derive(Debug, Clone, PartialEq)]
pub enum FlowOp {
    Mint(AssetMint),
    Transfer(AssetTransfer),
    BatchTransfer(AssetBatchTransfer),
    Wrap(Wrap1155),
    BatchWrap(BatchWrap1155),
    Unwrap(Unwrap1155),
    GetWrapped(GetWrapped1155),
}

/// The mathematical value of a [`FlowOp`].
#[verifier::ext_equal]
pub enum FlowOpView {
    Mint(AssetMintView),
    Transfer(AssetTransferView),
    BatchTransfer(AssetBatchTransferView),
    Wrap(Wrap1155View),
    BatchWrap(BatchWrap1155View),
    Unwrap(Unwrap1155View),
    GetWrapped(GetWrapped1155View),
}

impl View for FlowOp {
    type V = FlowOpView;

    open spec fn view(&self) -> FlowOpView {
        match self {
            FlowOp::Mint(m) => FlowOpView::Mint(m@),
            FlowOp::Transfer(t) => FlowOpView::Transfer(t@),
            FlowOp::BatchTransfer(t) => FlowOpView::BatchTransfer(t@),
            FlowOp::Wrap(w) => FlowOpView::Wrap(w@),
            FlowOp::BatchWrap(w) => FlowOpView::BatchWrap(w@),
            FlowOp::Unwrap(u) => FlowOpView::Unwrap(u@),
            FlowOp::GetWrapped(g) => FlowOpView::GetWrapped(g@),
        }
    }
}

/// A validated operation: addresses parsed to bytes, metadata encoded to
/// its payload.
enum ValidatedOp {
    Mint { account: ChainAddress, amount: u64, id: u64, payload: Vec<u8> },
    Transfer { from: ChainAddress, to: ChainAddress, amount: u64, id: u64, payload: Vec<u8> },
    BatchTransfer {
        from: ChainAddress,
        to: ChainAddress,
        ids: Vec<u64>,
        amounts: Vec<u64>,
        payload: Vec<u8>,
    },
    Wrap { from: ChainAddress, amount: u64, id: u64, payload: Vec<u8> },
    BatchWrap { from: ChainAddress, ids: Vec<u64>, amounts: Vec<u64>, payload: Vec<u8> },
    Unwrap { id: u64, amount: u64, recipient: ChainAddress, payload: Vec<u8> },
    GetWrapped { id: u64, payload: Vec<u8> },
}

/// The mathematical value of a validated operation.
#[verifier::ext_equal]
pub enum ValidatedOpView {
    Mint { account: Seq<u8>, amount: u64, id: u64, payload: Seq<u8> },
    Transfer { from: Seq<u8>, to: Seq<u8>, amount: u64, id: u64, payload: Seq<u8> },
    BatchTransfer {
        from: Seq<u8>,
        to: Seq<u8>,
        ids: Seq<u64>,
        amounts: Seq<u64>,
        payload: Seq<u8>,
    },
    Wrap { from: Seq<u8>, amount: u64, id: u64, payload: Seq<u8> },
    BatchWrap { from: Seq<u8>, ids: Seq<u64>, amounts: Seq<u64>, payload: Seq<u8> },
    Unwrap { id: u64, amount: u64, recipient: Seq<u8>, payload: Seq<u8> },
    GetWrapped { id: u64, payload: Seq<u8> },
}

impl View for ValidatedOp {
    type V = ValidatedOpView;

    closed spec fn view(&self) -> ValidatedOpView {
        match self {
            ValidatedOp::Mint { account, amount, id, payload } => ValidatedOpView::Mint {
                account: account@,
                amount: *amount,
                id: *id,
                payload: payload@,
            },
            ValidatedOp::Transfer { from, to, amount, id, payload } => ValidatedOpView::Transfer {
                from: from@,
                to: to@,
                amount: *amount,
                id: *id,
                payload: payload@,
            },
            ValidatedOp::BatchTransfer {
                from,
                to,
                ids,
                amounts,
                payload,
            } => ValidatedOpView::BatchTransfer {
                from: from@,
                to: to@,
                ids: ids@,
                amounts: amounts@,
                payload: payload@,
            },
            ValidatedOp::Wrap { from, amount, id, payload } => ValidatedOpView::Wrap {
                from: from@,
                amount: *amount,
                id: *id,
                payload: payload@,
            },
            ValidatedOp::BatchWrap { from, ids, amounts, payload } => ValidatedOpView::BatchWrap {
                from: from@,
                ids: ids@,
                amounts: amounts@,
                payload: payload@,
            },
            ValidatedOp::Unwrap { id, amount, recipient, payload } => ValidatedOpView::Unwrap {
                id: *id,
                amount: *amount,
                recipient: recipient@,
                payload: payload@,
            },
            ValidatedOp::GetWrapped { id, payload } => ValidatedOpView::GetWrapped {
                id: *id,
                payload: payload@,
            },
        }
    }
}

/// The mathematical state of a flow: the validated operation, and the
/// factory address once it has been resolved.
#[verifier::ext_equal]
pub struct FlowView {
    pub op: ValidatedOpView,
    pub factory: Option<Seq<u8>>,
}

/// A flow between two of its steps.
pub struct FlowInProgress {
    op: ValidatedOp,
    factory: Option<ChainAddress>,
}

impl View for FlowInProgress {
    type V = FlowView;

    closed spec fn view(&self) -> FlowView {
        FlowView {
            op: self.op@,
            factory: match self.factory {
                Some(a) => Some(a@),
                None => None,
            },
        }
    }
}

/// What validation makes of each request: either the validated operation,
/// or the `InvalidRequest` rejection.  A batch whose `amounts`, `ids` and
/// `data` sequences disagree in length, or any malformed address text, is
/// rejected.
pub open spec fn spec_validate(op: FlowOpView) -> Result<ValidatedOpView, ApiError> {
    match op {
        FlowOpView::Mint(m) => if valid_address(m.account) {
            Ok(
                ValidatedOpView::Mint {
                    account: decoded_address(m.account),
                    amount: m.amount,
                    id: m.id,
                    payload: encoded_metadata(m.data),
                },
            )
        } else {
            Err(ApiError::InvalidRequest)
        },
        FlowOpView::Transfer(t) => if valid_address(t.from) && valid_address(t.to) {
            Ok(
                ValidatedOpView::Transfer {
                    from: decoded_address(t.from),
                    to: decoded_address(t.to),
                    amount: t.amount,
                    id: t.id,
                    payload: encoded_metadata(t.data),
                },
            )
        } else {
            Err(ApiError::InvalidRequest)
        },
        FlowOpView::BatchTransfer(t) => if t.amounts.len() == t.ids.len() && t.ids.len()
            == t.data.len() && valid_address(t.from) && valid_address(t.to) {
            Ok(
                ValidatedOpView::BatchTransfer {
                    from: decoded_address(t.from),
                    to: decoded_address(t.to),
                    ids: t.ids,
                    amounts: t.amounts,
                    payload: encoded_batch(t.data),
                },
            )
        } else {
            Err(ApiError::InvalidRequest)
        },
        FlowOpView::Wrap(w) => if valid_address(w.from) {
            Ok(
                ValidatedOpView::Wrap {
                    from: decoded_address(w.from),
                    amount: w.amount,
                    id: w.id,
                    payload: encoded_metadata(w.data),
                },
            )
        } else {
            Err(ApiError::InvalidRequest)
        },
        FlowOpView::BatchWrap(w) => if w.amounts.len() == w.ids.len() && w.ids.len()
            == w.data.len() && valid_address(w.from) {
            Ok(
                ValidatedOpView::BatchWrap {
                    from: decoded_address(w.from),
                    ids: w.ids,
                    amounts: w.amounts,
                    payload: encoded_batch(w.data),
                },
            )
        } else {
            Err(ApiError::InvalidRequest)
        },
        FlowOpView::Unwrap(u) => if valid_address(u.recipient_address) {
            Ok(
                ValidatedOpView::Unwrap {
                    id: u.id,
                    amount: u.amount,
                    recipient: decoded_address(u.recipient_address),
                    payload: encoded_metadata(u.data),
                },
            )
        } else {
            Err(ApiError::InvalidRequest)
        },
        FlowOpView::GetWrapped(g) => Ok(
            ValidatedOpView::GetWrapped { id: g.id, payload: encoded_metadata(g.data) },
        ),
    }
}

/// The contract a flow resolves first: the asset contract for the direct
/// flows, the factory contract for every wrap-family flow.
pub open spec fn spec_first_contract(v: ValidatedOpView) -> ContractId {
    match v {
        ValidatedOpView::Mint { .. } => ContractId::Asset,
        ValidatedOpView::Transfer { .. } => ContractId::Asset,
        ValidatedOpView::BatchTransfer { .. } => ContractId::Asset,
        ValidatedOpView::Wrap { .. } => ContractId::Factory,
        ValidatedOpView::BatchWrap { .. } => ContractId::Factory,
        ValidatedOpView::Unwrap { .. } => ContractId::Factory,
        ValidatedOpView::GetWrapped { .. } => ContractId::Factory,
    }
}

/// The mathematical value of a [`FlowStep`].
#[verifier::ext_equal]
pub enum FlowStepView {
    Resolve(ContractId, FlowView),
    Call(CallActionView),
}

/// What a flow asks for next: another address resolution, or the finished
/// call.
pub enum FlowStep {
    Resolve(ContractId, FlowInProgress),
    Call(CallAction),
}

impl View for FlowStep {
    type V = FlowStepView;

    open spec fn view(&self) -> FlowStepView {
        match self {
            FlowStep::Resolve(c, f) => FlowStepView::Resolve(*c, f@),
            FlowStep::Call(a) => FlowStepView::Call(a@),
        }
    }
}

/// The machine's answer to one resolved address `a`.
///
/// The direct flows build their call on the asset contract at `a`.  A wrap
/// becomes a transfer whose `to` is the factory address `a`, and a batch
/// wrap becomes a batch transfer likewise; both then resolve the asset
/// contract.  Unwrap and get-wrapped keep the factory address `a` as the
/// call target and resolve the asset contract next; once it arrives they
/// build the factory call, passing the asset address as the first argument.
/// Only get-wrapped is evaluated read-only and unsigned; every other call
/// is submitted with the configured signer attached.
pub open spec fn spec_resolved(f: FlowView, a: Seq<u8>) -> FlowStepView {
    match f.op {
        ValidatedOpView::Mint { account, amount, id, payload } => FlowStepView::Call(
            CallActionView::Submit(
                CallDescriptorView {
                    target: a,
                    method: MethodId::Mint,
                    args: seq![
                        CallArgView::Addr(account),
                        CallArgView::Uint(id),
                        CallArgView::Uint(amount),
                        CallArgView::Data(payload),
                    ],
                    signed: true,
                },
            ),
        ),
        ValidatedOpView::Transfer { from, to, amount, id, payload } => FlowStepView::Call(
            CallActionView::Submit(
                CallDescriptorView {
                    target: a,
                    method: MethodId::SafeTransferFrom,
                    args: seq![
                        CallArgView::Addr(from),
                        CallArgView::Addr(to),
                        CallArgView::Uint(id),
                        CallArgView::Uint(amount),
                        CallArgView::Data(payload),
                    ],
                    signed: true,
                },
            ),
        ),
        ValidatedOpView::BatchTransfer { from, to, ids, amounts, payload } => FlowStepView::Call(
            CallActionView::Submit(
                CallDescriptorView {
                    target: a,
                    method: MethodId::SafeBatchTransferFrom,
                    args: seq![
                        CallArgView::Addr(from),
                        CallArgView::Addr(to),
                        CallArgView::UintList(ids),
                        CallArgView::UintList(amounts),
                        CallArgView::Data(payload),
                    ],
                    signed: true,
                },
            ),
        ),
        ValidatedOpView::Wrap { from, amount, id, payload } => FlowStepView::Resolve(
            ContractId::Asset,
            FlowView {
                op: ValidatedOpView::Transfer { from, to: a, amount, id, payload },
                factory: Some(a),
            },
        ),
        ValidatedOpView::BatchWrap { from, ids, amounts, payload } => FlowStepView::Resolve(
            ContractId::Asset,
            FlowView {
                op: ValidatedOpView::BatchTransfer { from, to: a, ids, amounts, payload },
                factory: Some(a),
            },
        ),
        ValidatedOpView::Unwrap { id, amount, recipient, payload } => match f.factory {
            None => FlowStepView::Resolve(
                ContractId::Asset,
                FlowView { op: f.op, factory: Some(a) },
            ),
            Some(fac) => FlowStepView::Call(
                CallActionView::Submit(
                    CallDescriptorView {
                        target: fac,
                        method: MethodId::Unwrap,
                        args: seq![
                            CallArgView::Addr(a),
                            CallArgView::Uint(id),
                            CallArgView::Uint(amount),
                            CallArgView::Addr(recipient),
                            CallArgView::Data(payload),
                        ],
                        signed: true,
                    },
                ),
            ),
        },
        ValidatedOpView::GetWrapped { id, payload } => match f.factory {
            None => FlowStepView::Resolve(
                ContractId::Asset,
                FlowView { op: f.op, factory: Some(a) },
            ),
            Some(fac) => FlowStepView::Call(
                CallActionView::Evaluate(
                    CallDescriptorView {
                        target: fac,
                        method: MethodId::GetWrapped1155,
                        args: seq![
                            CallArgView::Addr(a),
                            CallArgView::Uint(id),
                            CallArgView::Data(payload),
                        ],
                        signed: false,
                    },
                ),
            ),
        },
    }
}

/// Validates a request and starts its flow: the result names the first
/// contract to resolve.  A rejected request never reaches any resolution.
pub fn begin_flow(op: FlowOp) -> (r: Result<(ContractId, FlowInProgress), ApiError>)
    ensures
        r is Ok <==> spec_validate(op@) is Ok,
        r matches Ok(p) ==> spec_validate(op@) matches Ok(v) && p.0 == spec_first_contract(v)
            && p.1@ == (FlowView { op: v, factory: None }),
        r matches Err(e) ==> spec_validate(op@) matches Err(e2) && e == e2,
{
    match op {
        FlowOp::Mint(m) => {
            let account = match parse_address(m.account.as_str()) {
                Ok(a) => a,
                Err(e) => {
                    return Err(e);
                },
            };
            let payload = metadata_payload(&m.data);
            let flow = FlowInProgress {
                op: ValidatedOp::Mint { account, amount: m.amount, id: m.id, payload },
                factory: None,
            };
            Ok((ContractId::Asset, flow))
        },
        FlowOp::Transfer(t) => {
            let from = match parse_address(t.from.as_str()) {
                Ok(a) => a,
                Err(e) => {
                    return Err(e);
                },
            };
            let to = match parse_address(t.to.as_str()) {
                Ok(a) => a,
                Err(e) => {
                    return Err(e);
                },
            };
            let payload = metadata_payload(&t.data);
            let flow = FlowInProgress {
                op: ValidatedOp::Transfer { from, to, amount: t.amount, id: t.id, payload },
                factory: None,
            };
            Ok((ContractId::Asset, flow))
        },
        FlowOp::BatchTransfer(t) => {
            if !(t.amounts.len() == t.ids.len() && t.ids.len() == t.data.len()) {
                return Err(ApiError::InvalidRequest);
            }
            let from = match parse_address(t.from.as_str()) {
                Ok(a) => a,
                Err(e) => {
                    return Err(e);
                },
            };
            let to = match parse_address(t.to.as_str()) {
                Ok(a) => a,
                Err(e) => {
                    return Err(e);
                },
            };
            let payload = batch_payload(&t.data);
            let flow = FlowInProgress {
                op: ValidatedOp::BatchTransfer { from, to, ids: t.ids, amounts: t.amounts, payload },
                factory: None,
            };
            Ok((ContractId::Asset, flow))
        },
        FlowOp::Wrap(w) => {
            let from = match parse_address(w.from.as_str()) {
                Ok(a) => a,
                Err(e) => {
                    return Err(e);
                },
            };
            let payload = metadata_payload(&w.data);
            let flow = FlowInProgress {
                op: ValidatedOp::Wrap { from, amount: w.amount, id: w.id, payload },
                factory: None,
            };
            Ok((ContractId::Factory, flow))
        },
        FlowOp::BatchWrap(w) => {
            if !(w.amounts.len() == w.ids.len() && w.ids.len() == w.data.len()) {
                return Err(ApiError::InvalidRequest);
            }
            let from = match parse_address(w.from.as_str()) {
                Ok(a) => a,
                Err(e) => {
                    return Err(e);
                },
            };
            let payload = batch_payload(&w.data);
            let flow = FlowInProgress {
                op: ValidatedOp::BatchWrap { from, ids: w.ids, amounts: w.amounts, payload },
                factory: None,
            };
            Ok((ContractId::Factory, flow))
        },
        FlowOp::Unwrap(u) => {
            let recipient = match parse_address(u.recipient_address.as_str()) {
                Ok(a) => a,
                Err(e) => {
                    return Err(e);
                },
            };
            let payload = metadata_payload(&u.data);
            let flow = FlowInProgress {
                op: ValidatedOp::Unwrap { id: u.id, amount: u.amount, recipient, payload },
                factory: None,
            };
            Ok((ContractId::Factory, flow))
        },
        FlowOp::GetWrapped(g) => {
            let payload = metadata_payload(&g.data);
            let flow = FlowInProgress {
                op: ValidatedOp::GetWrapped { id: g.id, payload },
                factory: None,
            };
            Ok((ContractId::Factory, flow))
        },
    }
}

/// Feeds one resolved contract address into a flow and returns its next
/// step.
pub fn flow_resolved(flow: FlowInProgress, addr: ChainAddress) -> (s: FlowStep)
    ensures
        s@ == spec_resolved(flow@, addr@),
{
    let ghost f0 = flow@;
    let ghost av = addr@;
    let FlowInProgress { op, factory } = flow;
    match op {
        ValidatedOp::Mint { account, amount, id, payload } => {
            let mut args: Vec<CallArg> = Vec::new();
            args.push(CallArg::Addr(account));
            args.push(CallArg::Uint(id));
            args.push(CallArg::Uint(amount));
            args.push(CallArg::Data(payload));
            let c = build_call(addr, MethodId::Mint, args, true);
            let s = FlowStep::Call(CallAction::Submit(c));
            proof {
                assert(c@.args =~= spec_resolved(f0, av)->Call_0->Submit_0.args);
                assert(s@ =~= spec_resolved(f0, av));
            }
            s
        },
        ValidatedOp::Transfer { from, to, amount, id, payload } => {
            let mut args: Vec<CallArg> = Vec::new();
            args.push(CallArg::Addr(from));
            args.push(CallArg::Addr(to));
            args.push(CallArg::Uint(id));
            args.push(CallArg::Uint(amount));
            args.push(CallArg::Data(payload));
            let c = build_call(addr, MethodId::SafeTransferFrom, args, true);
            let s = FlowStep::Call(CallAction::Submit(c));
            proof {
                assert(c@.args =~= spec_resolved(f0, av)->Call_0->Submit_0.args);
                assert(s@ =~= spec_resolved(f0, av));
            }
            s
        },
        ValidatedOp::BatchTransfer { from, to, ids, amounts, payload } => {
            let mut args: Vec<CallArg> = Vec::new();
            args.push(CallArg::Addr(from));
            args.push(CallArg::Addr(to));
            args.push(CallArg::UintList(ids));
            args.push(CallArg::UintList(amounts));
            args.push(CallArg::Data(payload));
            let c = build_call(addr, MethodId::SafeBatchTransferFrom, args, true);
            let s = FlowStep::Call(CallAction::Submit(c));
            proof {
                assert(c@.args =~= spec_resolved(f0, av)->Call_0->Submit_0.args);
                assert(s@ =~= spec_resolved(f0, av));
            }
            s
        },
        ValidatedOp::Wrap { from, amount, id, payload } => {
            let to = addr.duplicate();
            let s = FlowStep::Resolve(
                ContractId::Asset,
                FlowInProgress {
                    op: ValidatedOp::Transfer { from, to, amount, id, payload },
                    factory: Some(addr),
                },
            );
            proof {
                assert(s@ =~= spec_resolved(f0, av));
            }
            s
        },
        ValidatedOp::BatchWrap { from, ids, amounts, payload } => {
            let to = addr.duplicate();
            let s = FlowStep::Resolve(
                ContractId::Asset,
                FlowInProgress {
                    op: ValidatedOp::BatchTransfer { from, to, ids, amounts, payload },
                    factory: Some(addr),
                },
            );
            proof {
                assert(s@ =~= spec_resolved(f0, av));
            }
            s
        },
        ValidatedOp::Unwrap { id, amount, recipient, payload } => {
            match factory {
                None => {
                    let s = FlowStep::Resolve(
                        ContractId::Asset,
                        FlowInProgress {
                            op: ValidatedOp::Unwrap { id, amount, recipient, payload },
                            factory: Some(addr),
                        },
                    );
                    proof {
                        assert(s@ =~= spec_resolved(f0, av));
                    }
                    s
                },
                Some(fac) => {
                    let mut args: Vec<CallArg> = Vec::new();
                    args.push(CallArg::Addr(addr));
                    args.push(CallArg::Uint(id));
                    args.push(CallArg::Uint(amount));
                    args.push(CallArg::Addr(recipient));
                    args.push(CallArg::Data(payload));
                    let c = build_call(fac, MethodId::Unwrap, args, true);
                    let s = FlowStep::Call(CallAction::Submit(c));
                    proof {
                        assert(c@.args =~= spec_resolved(f0, av)->Call_0->Submit_0.args);
                        assert(s@ =~= spec_resolved(f0, av));
                    }
                    s
                },
            }
        },
        ValidatedOp::GetWrapped { id, payload } => {
            match factory {
                None => {
                    let s = FlowStep::Resolve(
                        ContractId::Asset,
                        FlowInProgress {
                            op: ValidatedOp::GetWrapped { id, payload },
                            factory: Some(addr),
                        },
                    );
                    proof {
                        assert(s@ =~= spec_resolved(f0, av));
                    }
                    s
                },
                Some(fac) => {
                    let mut args: Vec<CallArg> = Vec::new();
                    args.push(CallArg::Addr(addr));
                    args.push(CallArg::Uint(id));
                    args.push(CallArg::Data(payload));
                    let c = build_call(fac, MethodId::GetWrapped1155, args, false);
                    let s = FlowStep::Call(CallAction::Evaluate(c));
                    proof {
                        assert(c@.args =~= spec_resolved(f0, av)->Call_0->Evaluate_0.args);
                        assert(s@ =~= spec_resolved(f0, av));
                    }
                    s
                },
            }
        },
    }
}

/// A transaction receipt, where one is available: the participants the
/// chain recorded.
pub struct Receipt {
    pub to: Option<ChainAddress>,
    pub from: ChainAddress,
}

/// What a submission returns: the transaction hash, and the receipt when
/// it is already available.
pub struct SubmitOutcome {
    pub hash: TxHash,
    pub receipt: Option<Receipt>,
}

/// The response of a flow: the transaction hash (or, for a read-only
/// evaluation, the decoded value) as hexadecimal text, and the receipt's
/// participants where they are reported.
#[derive(Debug, Clone, PartialEq)]
pub struct TransactionResult {
    pub tx: String,
    pub to: Option<String>,
    pub from: Option<String>,
}

/// Shapes the response of a submitting flow: the transaction hash alone.
pub fn submit_response(outcome: &SubmitOutcome) -> (r: TransactionResult)
    ensures
        r.tx@ == hex_text(outcome.hash@),
        r.to is None,
        r.from is None,
{
    TransactionResult { tx: outcome.hash.to_hex(), to: None, from: None }
}

/// Shapes the unwrap response: the transaction hash, and the receipt's
/// `to` and `from` exactly when a receipt is available — never fabricated.
pub fn unwrap_response(outcome: &SubmitOutcome) -> (r: TransactionResult)
    ensures
        r.tx@ == hex_text(outcome.hash@),
        outcome.receipt matches Some(rc) ==> {
            &&& (rc.to matches Some(t) ==> r.to matches Some(ts) && ts@ == hex_text(t@))
            &&& (rc.to is None ==> r.to is None)
            &&& (r.from matches Some(fs) && fs@ == hex_text(rc.from@))
        },
        outcome.receipt is None ==> r.to is None && r.from is None,
{
    match &outcome.receipt {
        Some(rc) => {
            let to = match &rc.to {
                Some(t) => Some(t.to_hex()),
                None => None,
            };
            TransactionResult { tx: outcome.hash.to_hex(), to, from: Some(rc.from.to_hex()) }
        },
        None => TransactionResult { tx: outcome.hash.to_hex(), to: None, from: None },
    }
}

/// Shapes the get-wrapped response: the evaluated value as shortest
/// hexadecimal text; no hash and no participants, since nothing was
/// submitted.
pub fn eval_response(value: &ValueWord) -> (r: TransactionResult)
    ensures
        r.tx@ == short_hex_text(value@),
        r.to is None,
        r.from is None,
{
    TransactionResult { tx: value.to_short_hex(), to: None, from: None }
}

/// A batch request whose `amounts`, `ids` and `data` sequences disagree in
/// length is rejected as `InvalidRequest` outright: validation fails, so
/// the flow never asks for any contract-address resolution.
pub proof fn lemma_batch_mismatch_rejected(op: FlowOpView)
    requires
        op matches FlowOpView::BatchTransfer(t) ==> !(t.amounts.len() == t.ids.len()
            && t.ids.len() == t.data.len()),
        op matches FlowOpView::BatchWrap(w) ==> !(w.amounts.len() == w.ids.len() && w.ids.len()
            == w.data.len()),
        op is BatchTransfer || op is BatchWrap,
    ensures
        spec_validate(op) == Err::<ValidatedOpView, ApiError>(ApiError::InvalidRequest),
{
}

/// The wrap flow's transfer always carries the factory contract's resolved
/// address as `to` — the request has no `to` field at all — and the final
/// call is a signed `safeTransferFrom` on the asset contract whose second
/// argument is that factory address.
pub proof fn lemma_wrap_transfers_to_factory(
    from: Seq<u8>,
    amount: u64,
    id: u64,
    payload: Seq<u8>,
    factory: Seq<u8>,
    asset: Seq<u8>,
)
    ensures
        ({
            let f0 = FlowView {
                op: ValidatedOpView::Wrap { from, amount, id, payload },
                factory: None,
            };
            match spec_resolved(f0, factory) {
                FlowStepView::Resolve(c, f1) => {
                    &&& c == ContractId::Asset
                    &&& f1.op == (ValidatedOpView::Transfer {
                        from,
                        to: factory,
                        amount,
                        id,
                        payload,
                    })
                    &&& f1.factory == Some(factory)
                    &&& match spec_resolved(f1, asset) {
                        FlowStepView::Call(CallActionView::Submit(desc)) => {
                            &&& desc.method == MethodId::SafeTransferFrom
                            &&& desc.target == asset
                            &&& desc.signed
                            &&& desc.args =~= seq![
                                CallArgView::Addr(from),
                                CallArgView::Addr(factory),
                                CallArgView::Uint(id),
                                CallArgView::Uint(amount),
                                CallArgView::Data(payload),
                            ]
                        },
                        _ => false,
                    }
                },
                _ => false,
            }
        }),
{
}

/// The unwrap and get-wrapped flows resolve the factory contract first and
/// the asset contract second, and no call is handed over before both
/// resolutions have answered; a failed deployment lookup is classified as
/// a contract-resolution failure, which is distinct from a method failure.
pub proof fn lemma_cross_contract_resolution_order(v: ValidatedOpView, factory: Seq<u8>)
    requires
        v is Unwrap || v is GetWrapped,
    ensures
        spec_first_contract(v) == ContractId::Factory,
        ({
            let f0 = FlowView { op: v, factory: None };
            match spec_resolved(f0, factory) {
                FlowStepView::Resolve(c, f1) => c == ContractId::Asset && f1.op == v && f1.factory
                    == Some(factory),
                _ => false,
            }
        }),
        forall|d: String|
            (#[trigger] crate::error::spec_classify(crate::error::RawFailure::DeploymentMissing(d)))
                == ApiError::ContractError(d),
        forall|d: String|
            !((#[trigger] crate::error::spec_classify(
                crate::error::RawFailure::DeploymentMissing(d),
            )) is MethodError),
{
}

} // verus!
