use inoutflow::amount::Amount;
use inoutflow::flow::{flow, net_flow, summarize, Direction};
use inoutflow::records::{flag_from_str, InternalTransaction, NormalTransaction};

const TARGET: &str = "0x1111111111111111111111111111111111111111";
const OTHER: &str = "0x2222222222222222222222222222222222222222";

fn normal(from: &str, to: &str, value: u64, is_error: bool) -> NormalTransaction {
    NormalTransaction {
        block_number: 1,
        timestamp: 1_600_000_000,
        hash: "0xabc".to_string(),
        nonce: 0,
        transaction_index: 0,
        from: from.to_string(),
        to: to.to_string(),
        value: Amount::from_u64(value),
        gas: 21_000,
        gas_price: 5,
        is_error,
        txreceipt_status: "1".to_string(),
        input: "0x".to_string(),
        contract_address: String::new(),
        cumulative_gas_used: 21_000,
        gas_used: 21_000,
        confirmations: 10,
    }
}

fn internal(from: &str, to: &str, value: u64, is_error: bool) -> InternalTransaction {
    InternalTransaction {
        block_number: 1,
        timestamp: 1_600_000_000,
        hash: "0xdef".to_string(),
        from: from.to_string(),
        to: to.to_string(),
        value: Amount::from_u64(value),
        contract_address: String::new(),
        input: String::new(),
        call_type: Some("call".to_string()),
        gas: 2_300,
        gas_used: 0,
        trace_id: Some("0".to_string()),
        is_error,
        err_code: None,
    }
}

fn target() -> String {
    TARGET.to_string()
}

#[test]
fn outflow_and_inflow_leave_out_failed() {
    let txs = vec![
        normal(TARGET, OTHER, 100, false),
        normal(TARGET, OTHER, 40, true),
        normal(OTHER, TARGET, 7, false),
        normal(OTHER, TARGET, 1000, true),
        normal(OTHER, OTHER, 55, false),
    ];
    assert_eq!(flow(&txs, &target(), Direction::Outflow), Some(Amount::from_u64(100)));
    assert_eq!(flow(&txs, &target(), Direction::Inflow), Some(Amount::from_u64(7)));
}

#[test]
fn filtered_and_unfiltered_differ_by_failed_records() {
    let txs = vec![
        normal(TARGET, OTHER, 100, false),
        normal(TARGET, OTHER, 40, true),
        normal(OTHER, TARGET, 7, false),
        normal(OTHER, TARGET, 1000, true),
    ];
    let unflagged: Vec<NormalTransaction> = txs
        .iter()
        .map(|t| normal(&t.from, &t.to, t.value.w0, false))
        .collect();
    let out_ok = flow(&txs, &target(), Direction::Outflow).unwrap().w0 as i128;
    let in_ok = flow(&txs, &target(), Direction::Inflow).unwrap().w0 as i128;
    let out_all = flow(&unflagged, &target(), Direction::Outflow).unwrap().w0 as i128;
    let in_all = flow(&unflagged, &target(), Direction::Inflow).unwrap().w0 as i128;
    // failed records: 40 sent, 1000 received
    assert_eq!((out_all - in_all) - (out_ok - in_ok), 40 - 1000);
}

#[test]
fn no_sends_means_zero_outflow_and_net_is_inflow() {
    let txs = vec![internal(OTHER, TARGET, 300, false), internal(OTHER, TARGET, 200, false)];
    let summary = summarize(&txs, &target()).unwrap();
    assert_eq!(summary.count, 2);
    assert_eq!(summary.outflow, Amount::zero());
    assert_eq!(summary.inflow, Amount::from_u64(500));
    assert!(!summary.net.negative);
    assert_eq!(summary.net.magnitude, Amount::from_u64(500));
}

#[test]
fn net_flow_negative_when_more_goes_out() {
    let net = net_flow(Amount::from_u64(500_000_000_000_000_000), Amount::from_u64(2_000_000_000_000_000_000));
    assert!(net.negative);
    assert_eq!(net.magnitude, Amount::from_u64(1_500_000_000_000_000_000));
    assert_eq!(net.format_units(18), "-1.5");
}

#[test]
fn net_flow_zero_is_not_negative() {
    let net = net_flow(Amount::from_u64(9), Amount::from_u64(9));
    assert!(!net.negative);
    assert_eq!(net.magnitude, Amount::zero());
    assert_eq!(net.format_units(18), "0");
}

#[test]
fn empty_list_has_zero_flows() {
    let txs: Vec<NormalTransaction> = Vec::new();
    let summary = summarize(&txs, &target()).unwrap();
    assert_eq!(summary.count, 0);
    assert_eq!(summary.outflow, Amount::zero());
    assert_eq!(summary.inflow, Amount::zero());
}

#[test]
fn address_comparison_is_case_sensitive() {
    let upper = "0xAAAAAAAAAAAAAAAAAAAAAAAAAAAAAAAAAAAAAAAA";
    let txs = vec![normal(upper, OTHER, 5, false)];
    let lower = upper.to_lowercase();
    assert_eq!(flow(&txs, &lower, Direction::Outflow), Some(Amount::zero()));
    assert_eq!(flow(&txs, &upper.to_string(), Direction::Outflow), Some(Amount::from_u64(5)));
}

#[test]
fn flow_that_passes_256_bits_is_none() {
    let max = Amount { w0: u64::MAX, w1: u64::MAX, w2: u64::MAX, w3: u64::MAX };
    let mut txs = vec![normal(TARGET, OTHER, 1, false), normal(TARGET, OTHER, 1, false)];
    txs[0].value = max;
    assert_eq!(flow(&txs, &target(), Direction::Outflow), None);
    assert_eq!(summarize(&txs, &target()), None);
}

#[test]
fn flag_text_one_is_true() {
    assert!(flag_from_str("1"));
    assert!(!flag_from_str("0"));
    assert!(!flag_from_str(""));
    assert!(!flag_from_str("11"));
}
