use slp_htlc::contract::SlpHtlcSignatory;
use slp_htlc::error::HtlcError;
use slp_htlc::flow::{check_address, spend_plan, str_equal, DUST_AMOUNT};
use slp_htlc::flow::{
    check_broadcast, contract_output_index, find_script, parse_outpoint, resolve_key_source,
    validation_step, KeySource, ValidationAction,
};
use slp_htlc::gas::{GasPlanner, FEE_RATE};

const TXID: &str = "00112233445566778899aabbccddeeff00112233445566778899aabbccddeeff";

#[test]
fn outpoint_parses() {
    let o = parse_outpoint(&format!("{}:7", TXID)).unwrap();
    assert_eq!(o.vout, 7);
    assert_eq!(hex::encode(&o.txid), TXID);
    let mut rev = o.txid.clone();
    rev.reverse();
    assert_eq!(o.tx_hash(), rev);
    assert_eq!(parse_outpoint(&format!("{}:4294967295", TXID)).unwrap().vout, u32::MAX);
}

#[test]
fn outpoint_rejects_malformed() {
    assert_eq!(parse_outpoint(TXID).err(), Some(HtlcError::ConfigurationError));
    assert_eq!(parse_outpoint(&format!("{}:", TXID)).err(), Some(HtlcError::ConfigurationError));
    assert_eq!(parse_outpoint(&format!("{}:x1", TXID)).err(), Some(HtlcError::ConfigurationError));
    assert_eq!(parse_outpoint(&format!("{}:4294967296", TXID)).err(), Some(HtlcError::ConfigurationError));
    assert_eq!(parse_outpoint("abcd:1").err(), Some(HtlcError::ConfigurationError));
    assert_eq!(parse_outpoint(&format!("{}:1:2", TXID)).err(), Some(HtlcError::ConfigurationError));
}

#[test]
fn key_source_is_exclusive() {
    let both = resolve_key_source(Some("aa".to_string()), Some("addr".to_string()));
    assert!(matches!(both, Err(HtlcError::ConfigurationError)));
    let none = resolve_key_source(None, None);
    assert!(matches!(none, Err(HtlcError::ConfigurationError)));
    assert!(matches!(resolve_key_source(Some("aa".to_string()), None), Ok(KeySource::SecretKey(k)) if k == "aa"));
    assert!(matches!(resolve_key_source(None, Some("q".to_string())), Ok(KeySource::WalletAddress(a)) if a == "q"));
}

#[test]
fn broadcast_answers() {
    assert_eq!(check_broadcast("error: the transaction was rejected"), Err(HtlcError::BroadcastRejected));
    assert_eq!(check_broadcast(TXID), Ok(()));
    assert_eq!(check_broadcast("erro"), Ok(()));
}

#[test]
fn validation_retries_transient_failures() {
    let answers: Vec<Option<&str>> = vec![None, None, Some("Valid")];
    let mut result = None;
    let mut retries = 0;
    for a in answers {
        match validation_step(a) {
            ValidationAction::Retry => retries += 1,
            ValidationAction::Done(v) => {
                result = Some(v);
                break;
            }
        }
    }
    assert_eq!(retries, 2);
    assert_eq!(result, Some(true));
}

#[test]
fn validation_invalid_answer_is_false() {
    assert!(matches!(validation_step(Some("Invalid")), ValidationAction::Done(false)));
    assert!(matches!(validation_step(Some("valid")), ValidationAction::Done(false)));
}

#[test]
fn escrow_output_is_found() {
    let scripts = vec![vec![0x6a], vec![0xa9, 0x14], vec![1, 2, 3], vec![1, 2, 3]];
    assert_eq!(find_script(&scripts, &vec![1, 2, 3]), Ok(2));
    assert_eq!(find_script(&scripts, &vec![4]), Err(HtlcError::ContractOutputNotFound));
}

#[test]
fn escrow_output_in_funding_tx() {
    let mut tx = vec![0x01, 0x00, 0x00, 0x00, 0x01];
    tx.extend(vec![0u8; 32]);
    tx.extend([0xff, 0xff, 0xff, 0xff, 0x00, 0xff, 0xff, 0xff, 0xff, 0x02]);
    tx.extend(0u64.to_le_bytes());
    tx.extend([0x01, 0x6a]);
    tx.extend(546u64.to_le_bytes());
    tx.extend([0x03, 0xa9, 0x01, 0x87]);
    tx.extend([0, 0, 0, 0]);
    let hex_tx = hex::encode(tx);
    assert_eq!(contract_output_index(&hex_tx, &vec![0xa9, 0x01, 0x87]), Ok(1));
    assert_eq!(contract_output_index(&hex_tx, &vec![0xa9]), Err(HtlcError::ContractOutputNotFound));
    assert_eq!(contract_output_index("zz", &vec![0xa9]), Err(HtlcError::MalformedMetadata));
}

#[test]
fn gas_planner_accepts_when_fee_is_paid() {
    let mut p = GasPlanner::new(3, 546, 1092, FEE_RATE);
    assert_eq!(p.next_input(), Ok(0));
    assert_eq!(p.add_input(400), None);
    assert_eq!(p.next_input(), Ok(1));
    let left = p.add_input(500).unwrap();
    assert_eq!(left, 354);
    assert!(!p.fee_covered(400, left));
    assert_eq!(p.next_input(), Ok(2));
    let left = p.add_input(1000).unwrap();
    assert_eq!(left, 1354);
    assert!(p.fee_covered(600, left));
    assert!(p.fee_covered(1354, left));
    assert!(!p.fee_covered(1355, left));
    assert_eq!(p.input_sum, 546 + 400 + 500 + 1000);
}

#[test]
fn gas_planner_reports_exhaustion() {
    let mut p = GasPlanner::new(1, 0, 10_000, 1);
    assert_eq!(p.next_input(), Ok(0));
    assert_eq!(p.add_input(100), None);
    assert_eq!(p.next_input(), Err(HtlcError::InsufficientFunds));
    let empty = GasPlanner::new(0, 0, 0, 1);
    assert_eq!(empty.next_input(), Err(HtlcError::InsufficientFunds));
}

#[test]
fn gas_planner_fee_rate_scales() {
    let mut p = GasPlanner::new(1, 0, 0, 3);
    let left = p.add_input(u64::MAX).unwrap();
    assert_eq!(left, u64::MAX as u128);
    assert!(p.fee_covered(100, left));
    let mut q = GasPlanner::new(1, 0, 0, 3);
    let left = q.add_input(299).unwrap();
    assert!(!q.fee_covered(100, left));
}

#[test]
fn error_messages() {
    assert_eq!(HtlcError::InsufficientFunds.message(), "insufficient funds to pay the fee");
    assert_eq!(HtlcError::ContractOutputNotFound.message(), "contract output not found");
}

#[test]
fn spend_plan_per_branch() {
    let redeem = spend_plan(&SlpHtlcSignatory::Redeem { seller_pk: vec![2; 33], secret: vec![0; 32] }, 500000);
    assert_eq!((redeem.version, redeem.lock_time, redeem.contract_sequence), (1, 0, 0xffff_ffff));
    assert_eq!(redeem.contract_value, DUST_AMOUNT);
    assert_eq!((redeem.token_output_value, redeem.recipient_value), (0, 546));
    let timeout = spend_plan(&SlpHtlcSignatory::Timeout { buyer_pk: vec![3; 33] }, 500000);
    assert_eq!((timeout.version, timeout.lock_time, timeout.contract_sequence), (2, 500000, 0xffff_fffe));
}

#[test]
fn address_network_and_type() {
    assert_eq!(check_address("slptest", "slptest", true), Ok(()));
    assert_eq!(check_address("simpleledger", "slptest", true), Err(HtlcError::ConfigurationError));
    assert_eq!(check_address("slptest", "slptest", false), Err(HtlcError::ConfigurationError));
    assert!(str_equal("abc", "abc"));
    assert!(!str_equal("abc", "abd"));
    assert!(!str_equal("abc", "ab"));
}
