use multi_send_backend::address::Address;
use multi_send_backend::call::{ContractCall, RequestError, MAX_PERCENT};
use multi_send_backend::reply::{balance_reply, rejection_reply, submission_reply, Reply};
use multi_send_backend::request::{
    collect, collect_many, disperse, disperse_all, get_balance, withdraw, CollectManyRequest,
    CollectRequest, DisperseAllRequest, DisperseRequest, WithdrawRequest,
};
use multi_send_backend::uint::Uint256;

const ONE: &str = "0x0000000000000000000000000000000000000001";

fn one_bytes() -> [u8; 20] {
    let mut b = [0u8; 20];
    b[19] = 1;
    b
}

#[test]
fn parse_address_with_prefix() {
    let a = Address::parse(ONE).unwrap();
    assert_eq!(a.bytes, one_bytes());
}

#[test]
fn parse_address_without_prefix_mixed_case() {
    let a = Address::parse("00112233445566778899AaBbCcDdEeFf0A1b2C3d").unwrap();
    assert_eq!(
        a.bytes,
        [
            0x00, 0x11, 0x22, 0x33, 0x44, 0x55, 0x66, 0x77, 0x88, 0x99, 0xaa, 0xbb, 0xcc, 0xdd,
            0xee, 0xff, 0x0a, 0x1b, 0x2c, 0x3d
        ]
    );
}

#[test]
fn parse_address_skips_blanks() {
    let a = Address::parse("0x00000000 00000000\t00000000\n00000000 00000001").unwrap();
    assert_eq!(a.bytes, one_bytes());
}

#[test]
fn parse_address_rejects_malformed() {
    assert!(Address::parse("").is_none());
    assert!(Address::parse("0x").is_none());
    assert!(Address::parse("0x000000000000000000000000000000000000001").is_none());
    assert!(Address::parse("0x000000000000000000000000000000000000000001").is_none());
    assert!(Address::parse("0x000000000000000000000000000000000000000g").is_none());
    assert!(Address::parse("0X0000000000000000000000000000000000000001").is_none());
    assert!(Address::parse("not an address").is_none());
}

#[test]
fn withdraw_zero_is_forwarded() {
    match withdraw(&WithdrawRequest { amount: 0 }) {
        ContractCall::Withdraw { amount } => assert_eq!(amount.words, [0, 0, 0, 0]),
        other => panic!("unexpected call {:?}", other),
    }
}

#[test]
fn withdraw_largest_amount_is_widened() {
    match withdraw(&WithdrawRequest { amount: u64::MAX }) {
        ContractCall::Withdraw { amount } => assert_eq!(amount.words, [u64::MAX, 0, 0, 0]),
        other => panic!("unexpected call {:?}", other),
    }
}

#[test]
fn collect_valid_request() {
    let req = CollectRequest { addr: ONE.to_string(), percent: 50 };
    match collect(&req) {
        Ok(ContractCall::Collect { addr, percent }) => {
            assert_eq!(addr.bytes, one_bytes());
            assert_eq!(percent, 50);
        }
        other => panic!("unexpected plan {:?}", other),
    }
}

#[test]
fn collect_reply_on_reachable_node() {
    let mut hash = [0u8; 32];
    hash[0] = 0xab;
    hash[31] = 0x01;
    let reply = submission_reply(Ok(hash));
    assert_eq!(reply.status(), 200);
    match reply {
        Reply::Submitted { message } => assert_eq!(
            message,
            "Transaction hash: 0xab00000000000000000000000000000000000000000000000000000000000001"
        ),
        other => panic!("unexpected reply {:?}", other),
    }
}

#[test]
fn collect_reply_on_unreachable_node() {
    let reply = submission_reply(Err("ProviderError(connection refused)".to_string()));
    assert_eq!(reply.status(), 500);
    match reply {
        Reply::Failed { message } => {
            assert_eq!(message, "Error: ProviderError(connection refused)")
        }
        other => panic!("unexpected reply {:?}", other),
    }
}

#[test]
fn collect_malformed_address() {
    let req = CollectRequest { addr: "0x12".to_string(), percent: 50 };
    let e = collect(&req).unwrap_err();
    assert_eq!(e, RequestError::InvalidAddress { index: 0 });
    let reply = rejection_reply(e);
    assert_eq!(reply.status(), 400);
    match reply {
        Reply::Rejected { message } => assert_eq!(message, "Error: invalid address"),
        other => panic!("unexpected reply {:?}", other),
    }
}

#[test]
fn collect_percent_out_of_range() {
    let req = CollectRequest { addr: ONE.to_string(), percent: 101 };
    let e = collect(&req).unwrap_err();
    assert_eq!(e, RequestError::PercentOutOfRange { percent: 101 });
    let reply = rejection_reply(e);
    assert_eq!(reply.status(), 400);
    match reply {
        Reply::Rejected { message } => assert_eq!(message, "Error: percent out of range"),
        other => panic!("unexpected reply {:?}", other),
    }
}

#[test]
fn address_error_comes_before_percent_error() {
    let req = DisperseRequest { addr: "zz".to_string(), percent: 255 };
    assert_eq!(disperse(&req).unwrap_err(), RequestError::InvalidAddress { index: 0 });
}

#[test]
fn disperse_bounds_of_percent() {
    for p in [0u8, MAX_PERCENT] {
        match disperse(&DisperseRequest { addr: ONE.to_string(), percent: p }) {
            Ok(ContractCall::Disperse { addr, percent }) => {
                assert_eq!(addr.bytes, one_bytes());
                assert_eq!(percent, p);
            }
            other => panic!("unexpected plan {:?}", other),
        }
    }
}

#[test]
fn collect_many_keeps_order() {
    let req = CollectManyRequest {
        addresses: vec![
            ONE.to_string(),
            "0x0000000000000000000000000000000000000002".to_string(),
        ],
        percent: 10,
    };
    match collect_many(&req) {
        Ok(ContractCall::CollectMany { addresses, percent }) => {
            assert_eq!(addresses.len(), 2);
            assert_eq!(addresses[0].bytes[19], 1);
            assert_eq!(addresses[1].bytes[19], 2);
            assert_eq!(percent, 10);
        }
        other => panic!("unexpected plan {:?}", other),
    }
}

#[test]
fn collect_many_empty_list() {
    let req = CollectManyRequest { addresses: vec![], percent: 10 };
    match collect_many(&req) {
        Ok(ContractCall::CollectMany { addresses, .. }) => assert!(addresses.is_empty()),
        other => panic!("unexpected plan {:?}", other),
    }
}

#[test]
fn disperse_all_reports_first_bad_address() {
    let req = DisperseAllRequest {
        addresses: vec![ONE.to_string(), "bad".to_string(), "worse".to_string()],
        percent: 200,
    };
    assert_eq!(disperse_all(&req).unwrap_err(), RequestError::InvalidAddress { index: 1 });
}

#[test]
fn disperse_all_percent_out_of_range() {
    let req = DisperseAllRequest { addresses: vec![ONE.to_string()], percent: 200 };
    assert_eq!(disperse_all(&req).unwrap_err(), RequestError::PercentOutOfRange { percent: 200 });
}

#[test]
fn balance_of_address_one() {
    let call = get_balance(ONE).unwrap();
    assert!(!call.changes_state());
    match call {
        ContractCall::GetBalance { addr } => assert_eq!(addr.bytes, one_bytes()),
        other => panic!("unexpected call {:?}", other),
    }
    let reply = balance_reply(Ok(Uint256 { words: [42, 0, 0, 0] }));
    assert_eq!(reply.status(), 200);
    match reply {
        Reply::Balance { value } => assert_eq!(value.words, [42, 0, 0, 0]),
        other => panic!("unexpected reply {:?}", other),
    }
}

#[test]
fn balance_is_same_on_repeat() {
    let a = get_balance(ONE).unwrap();
    let b = get_balance("0000000000000000000000000000000000000001").unwrap();
    match (a, b) {
        (ContractCall::GetBalance { addr: x }, ContractCall::GetBalance { addr: y }) => {
            assert_eq!(x.bytes, y.bytes)
        }
        other => panic!("unexpected calls {:?}", other),
    }
    let r1 = balance_reply(Ok(Uint256::from_u64(7)));
    let r2 = balance_reply(Ok(Uint256::from_u64(7)));
    match (r1, r2) {
        (Reply::Balance { value: x }, Reply::Balance { value: y }) => assert_eq!(x.words, y.words),
        other => panic!("unexpected replies {:?}", other),
    }
}

#[test]
fn balance_malformed_address() {
    assert_eq!(get_balance("0x00...01").unwrap_err(), RequestError::InvalidAddress { index: 0 });
}

#[test]
fn balance_reply_on_failure() {
    let reply = balance_reply(Err("timeout".to_string()));
    assert_eq!(reply.status(), 500);
    match reply {
        Reply::Failed { message } => assert_eq!(message, "Error: timeout"),
        other => panic!("unexpected reply {:?}", other),
    }
}

#[test]
fn state_changing_calls() {
    assert!(withdraw(&WithdrawRequest { amount: 5 }).changes_state());
    let c = collect(&CollectRequest { addr: ONE.to_string(), percent: 1 }).unwrap();
    assert!(c.changes_state());
}
