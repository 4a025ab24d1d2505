use sugarfunge_integration::address::{ChainAddress, TxHash, ValueWord};
use sugarfunge_integration::asset::{
    get_asset_data, AssetBatchTransfer, AssetData, AssetMint, AssetTransfer,
};
use sugarfunge_integration::call::{CallAction, CallArg, ContractId, MethodId};
use sugarfunge_integration::error::ApiError;
use sugarfunge_integration::flow::{
    begin_flow, eval_response, flow_resolved, submit_response, unwrap_response, FlowOp, FlowStep,
    Receipt, SubmitOutcome,
};
use sugarfunge_integration::wrapper::{BatchWrap1155, GetWrapped1155, Unwrap1155, Wrap1155};

fn metadata() -> AssetData {
    AssetData { name: String::from("name"), symbol: String::from("symbol"), decimals: 8 }
}

fn addr(bytes: Vec<u8>) -> ChainAddress {
    ChainAddress::new(bytes).expect("20 bytes")
}

fn account_text() -> String {
    // 0xAAA...1: thirty-nine `A` digits and a final `1`
    let mut s = String::from("0x");
    s.push_str(&"A".repeat(39));
    s.push('1');
    s
}

fn account_bytes() -> Vec<u8> {
    let mut b = vec![0xAAu8; 19];
    b.push(0xA1);
    b
}

fn factory_text() -> String {
    // 0xFFF...9: thirty-nine `F` digits and a final `9`
    let mut s = String::from("0x");
    s.push_str(&"F".repeat(39));
    s.push('9');
    s
}

fn factory_bytes() -> Vec<u8> {
    let mut b = vec![0xFFu8; 19];
    b.push(0xF9);
    b
}

#[test]
fn mint_builds_the_mint_call_on_the_asset_contract() {
    let req = AssetMint { account: account_text(), amount: 50, id: 3, data: metadata() };
    let (contract, flow) = begin_flow(FlowOp::Mint(req)).expect("valid request");
    assert_eq!(contract, ContractId::Asset);
    let asset = addr(vec![0x22; 20]);
    match flow_resolved(flow, asset.clone()) {
        FlowStep::Call(CallAction::Submit(c)) => {
            assert_eq!(c.target, asset);
            assert_eq!(c.method, MethodId::Mint);
            assert!(c.signed);
            let payload = get_asset_data(String::from("name"), String::from("symbol"), 8);
            assert_eq!(
                c.args,
                vec![
                    CallArg::Addr(addr(account_bytes())),
                    CallArg::Uint(3),
                    CallArg::Uint(50),
                    CallArg::Data(payload),
                ]
            );
        }
        _ => panic!("expected a submission"),
    }
    let hash = TxHash::new(vec![0x11; 32]).expect("32 bytes");
    let r = submit_response(&SubmitOutcome { hash, receipt: None });
    assert_eq!(r.tx, format!("0x{}", "11".repeat(32)));
    assert_eq!(r.to, None);
    assert_eq!(r.from, None);
}

#[test]
fn transfer_builds_safe_transfer_from() {
    let req = AssetTransfer {
        from: account_text(),
        to: factory_text(),
        amount: 10,
        id: 2,
        data: metadata(),
    };
    let (contract, flow) = begin_flow(FlowOp::Transfer(req)).expect("valid request");
    assert_eq!(contract, ContractId::Asset);
    let asset = addr(vec![0x22; 20]);
    match flow_resolved(flow, asset) {
        FlowStep::Call(CallAction::Submit(c)) => {
            assert_eq!(c.method, MethodId::SafeTransferFrom);
            assert_eq!(c.args[0], CallArg::Addr(addr(account_bytes())));
            assert_eq!(c.args[1], CallArg::Addr(addr(factory_bytes())));
            assert_eq!(c.args[2], CallArg::Uint(2));
            assert_eq!(c.args[3], CallArg::Uint(10));
        }
        _ => panic!("expected a submission"),
    }
}

#[test]
fn batch_length_mismatch_is_rejected_before_any_resolution() {
    let req = AssetBatchTransfer {
        from: account_text(),
        to: factory_text(),
        amounts: vec![10, 20],
        ids: vec![1, 2],
        data: vec![metadata()],
    };
    match begin_flow(FlowOp::BatchTransfer(req)) {
        Err(ApiError::InvalidRequest) => {}
        _ => panic!("expected InvalidRequest"),
    }
}

#[test]
fn batch_wrap_length_mismatch_is_rejected() {
    let req = BatchWrap1155 {
        from: account_text(),
        amounts: vec![10],
        ids: vec![1, 2],
        data: vec![metadata()],
    };
    match begin_flow(FlowOp::BatchWrap(req)) {
        Err(ApiError::InvalidRequest) => {}
        _ => panic!("expected InvalidRequest"),
    }
}

#[test]
fn batch_transfer_builds_safe_batch_transfer_from() {
    let req = AssetBatchTransfer {
        from: account_text(),
        to: factory_text(),
        amounts: vec![10, 20],
        ids: vec![1, 2],
        data: vec![metadata(), metadata()],
    };
    let (contract, flow) = begin_flow(FlowOp::BatchTransfer(req)).expect("valid request");
    assert_eq!(contract, ContractId::Asset);
    match flow_resolved(flow, addr(vec![0x22; 20])) {
        FlowStep::Call(CallAction::Submit(c)) => {
            assert_eq!(c.method, MethodId::SafeBatchTransferFrom);
            assert_eq!(c.args[2], CallArg::UintList(vec![1, 2]));
            assert_eq!(c.args[3], CallArg::UintList(vec![10, 20]));
        }
        _ => panic!("expected a submission"),
    }
}

#[test]
fn wrap_uses_the_resolved_factory_address_as_to() {
    let req = Wrap1155 { from: account_text(), amount: 15, id: 7, data: metadata() };
    let (contract, flow) = begin_flow(FlowOp::Wrap(req)).expect("valid request");
    assert_eq!(contract, ContractId::Factory);
    let factory = addr(factory_bytes());
    let flow = match flow_resolved(flow, factory.clone()) {
        FlowStep::Resolve(next, flow) => {
            assert_eq!(next, ContractId::Asset);
            flow
        }
        _ => panic!("expected an asset-contract resolution"),
    };
    let asset = addr(vec![0x22; 20]);
    match flow_resolved(flow, asset.clone()) {
        FlowStep::Call(CallAction::Submit(c)) => {
            assert_eq!(c.target, asset);
            assert_eq!(c.method, MethodId::SafeTransferFrom);
            assert_eq!(c.args[0], CallArg::Addr(addr(account_bytes())));
            assert_eq!(c.args[1], CallArg::Addr(factory));
            assert_eq!(c.args[2], CallArg::Uint(7));
            assert_eq!(c.args[3], CallArg::Uint(15));
        }
        _ => panic!("expected a submission"),
    }
}

#[test]
fn batch_wrap_delegates_to_batch_transfer_with_factory_as_to() {
    let req = BatchWrap1155 {
        from: account_text(),
        amounts: vec![5],
        ids: vec![9],
        data: vec![metadata()],
    };
    let (contract, flow) = begin_flow(FlowOp::BatchWrap(req)).expect("valid request");
    assert_eq!(contract, ContractId::Factory);
    let factory = addr(factory_bytes());
    let flow = match flow_resolved(flow, factory.clone()) {
        FlowStep::Resolve(next, flow) => {
            assert_eq!(next, ContractId::Asset);
            flow
        }
        _ => panic!("expected an asset-contract resolution"),
    };
    match flow_resolved(flow, addr(vec![0x22; 20])) {
        FlowStep::Call(CallAction::Submit(c)) => {
            assert_eq!(c.method, MethodId::SafeBatchTransferFrom);
            assert_eq!(c.args[1], CallArg::Addr(factory));
        }
        _ => panic!("expected a submission"),
    }
}

#[test]
fn unwrap_resolves_factory_then_asset_then_submits_on_factory() {
    let req = Unwrap1155 {
        id: 4,
        amount: 6,
        recipient_address: account_text(),
        data: metadata(),
    };
    let (contract, flow) = begin_flow(FlowOp::Unwrap(req)).expect("valid request");
    assert_eq!(contract, ContractId::Factory);
    let factory = addr(factory_bytes());
    let flow = match flow_resolved(flow, factory.clone()) {
        FlowStep::Resolve(next, flow) => {
            assert_eq!(next, ContractId::Asset);
            flow
        }
        _ => panic!("expected an asset-contract resolution"),
    };
    let asset = addr(vec![0x22; 20]);
    match flow_resolved(flow, asset.clone()) {
        FlowStep::Call(CallAction::Submit(c)) => {
            assert_eq!(c.target, factory);
            assert_eq!(c.method, MethodId::Unwrap);
            assert!(c.signed);
            assert_eq!(c.args[0], CallArg::Addr(asset));
            assert_eq!(c.args[1], CallArg::Uint(4));
            assert_eq!(c.args[2], CallArg::Uint(6));
            assert_eq!(c.args[3], CallArg::Addr(addr(account_bytes())));
        }
        _ => panic!("expected a submission"),
    }
}

#[test]
fn unwrap_response_reports_receipt_participants_only_when_available() {
    let hash = TxHash::new(vec![0xAB; 32]).expect("32 bytes");
    let with_receipt = SubmitOutcome {
        hash,
        receipt: Some(Receipt {
            to: Some(addr(factory_bytes())),
            from: addr(account_bytes()),
        }),
    };
    let r = unwrap_response(&with_receipt);
    assert_eq!(r.tx, format!("0x{}", "ab".repeat(32)));
    assert_eq!(r.to, Some(format!("0x{}f9", "ff".repeat(19))));
    assert_eq!(r.from, Some(format!("0x{}a1", "aa".repeat(19))));

    let hash = TxHash::new(vec![0xAB; 32]).expect("32 bytes");
    let without = SubmitOutcome { hash, receipt: None };
    let r = unwrap_response(&without);
    assert_eq!(r.to, None);
    assert_eq!(r.from, None);
}

#[test]
fn get_wrapped_evaluates_unsigned_on_the_factory() {
    let req = GetWrapped1155 { id: 7, data: metadata() };
    let (contract, flow) = begin_flow(FlowOp::GetWrapped(req)).expect("valid request");
    assert_eq!(contract, ContractId::Factory);
    let factory = addr(factory_bytes());
    let flow = match flow_resolved(flow, factory.clone()) {
        FlowStep::Resolve(next, flow) => {
            assert_eq!(next, ContractId::Asset);
            flow
        }
        _ => panic!("expected an asset-contract resolution"),
    };
    let asset = addr(vec![0x22; 20]);
    match flow_resolved(flow, asset.clone()) {
        FlowStep::Call(CallAction::Evaluate(c)) => {
            assert_eq!(c.target, factory);
            assert_eq!(c.method, MethodId::GetWrapped1155);
            assert!(!c.signed);
            let payload = get_asset_data(String::from("name"), String::from("symbol"), 8);
            assert_eq!(
                c.args,
                vec![CallArg::Addr(asset), CallArg::Uint(7), CallArg::Data(payload)]
            );
        }
        _ => panic!("expected a read-only evaluation"),
    }
    let mut value = vec![0u8; 31];
    value.push(0x2A);
    let r = eval_response(&ValueWord::new(value).expect("32 bytes"));
    assert_eq!(r.tx, "0x2a");
    assert_eq!(r.to, None);
    assert_eq!(r.from, None);
}

#[test]
fn malformed_address_text_is_an_invalid_request() {
    let req = AssetMint {
        account: String::from("0xnot-an-address"),
        amount: 1,
        id: 1,
        data: metadata(),
    };
    match begin_flow(FlowOp::Mint(req)) {
        Err(ApiError::InvalidRequest) => {}
        _ => panic!("expected InvalidRequest"),
    }
    let req = AssetMint {
        account: String::from("0x1234"),
        amount: 1,
        id: 1,
        data: metadata(),
    };
    match begin_flow(FlowOp::Mint(req)) {
        Err(ApiError::InvalidRequest) => {}
        _ => panic!("expected InvalidRequest"),
    }
}
