use slp_htlc::error::HtlcError;
use slp_htlc::slp::{decode_hex, get_utxo_token_amount, read_be_u64, token_amount_from_fields};

fn funding_tx_hex(token_id: &[u8], amounts: &[u64]) -> String {
    let mut script = vec![0x6a, 0x04, b'S', b'L', b'P', 0x00, 0x01, 0x01, 0x04, b'S', b'E', b'N', b'D', 0x20];
    script.extend_from_slice(token_id);
    for a in amounts {
        script.push(0x08);
        script.extend_from_slice(&a.to_be_bytes());
    }
    let mut tx = vec![0x01, 0x00, 0x00, 0x00, 0x01];
    tx.extend(vec![0u8; 32]);
    tx.extend([0xff, 0xff, 0xff, 0xff, 0x00, 0xff, 0xff, 0xff, 0xff]);
    tx.push(0x02);
    tx.extend(0u64.to_le_bytes());
    tx.push(script.len() as u8);
    tx.extend(script);
    tx.extend(546u64.to_le_bytes());
    tx.extend([0x01, 0x51]);
    tx.extend([0, 0, 0, 0]);
    hex::encode(tx)
}

#[test]
fn token_amount_round_trip() {
    let id: Vec<u8> = (0u8..32).collect();
    let tx = funding_tx_hex(&id, &[1000, 0x0102_0304_0506_0708]);
    assert_eq!(get_utxo_token_amount(&tx, 1), Ok((id.clone(), 1000)));
    assert_eq!(get_utxo_token_amount(&tx, 2), Ok((id, 0x0102_0304_0506_0708)));
}

#[test]
fn token_amount_missing_output() {
    let id = vec![7u8; 32];
    let tx = funding_tx_hex(&id, &[5]);
    assert_eq!(get_utxo_token_amount(&tx, 2), Err(HtlcError::MalformedMetadata));
    assert_eq!(get_utxo_token_amount(&tx, u32::MAX), Err(HtlcError::MalformedMetadata));
}

#[test]
fn token_amount_bad_hex_or_tx() {
    assert_eq!(get_utxo_token_amount("0g", 1), Err(HtlcError::MalformedMetadata));
    assert_eq!(get_utxo_token_amount("00", 1), Err(HtlcError::MalformedMetadata));
}

#[test]
fn token_fields_layout() {
    let fields = vec![None, Some(b"SLP\0".to_vec()), Some(vec![1]), Some(b"SEND".to_vec()), Some(vec![9; 32]), Some(vec![0, 0, 0, 0, 0, 0, 1, 0])];
    assert_eq!(token_amount_from_fields(&fields, 1), Ok((vec![9; 32], 256)));
    assert_eq!(token_amount_from_fields(&fields, 0), Err(HtlcError::MalformedMetadata));
    let short = vec![None, None, None, None, Some(vec![9; 32]), Some(vec![1, 2, 3])];
    assert_eq!(token_amount_from_fields(&short, 1), Err(HtlcError::MalformedMetadata));
    let bad_id = vec![None, None, None, None, Some(vec![9; 31]), Some(vec![0; 8])];
    assert_eq!(token_amount_from_fields(&bad_id, 1), Err(HtlcError::MalformedMetadata));
    let no_push = vec![None, None, None, None, Some(vec![9; 32]), None];
    assert_eq!(token_amount_from_fields(&no_push, 1), Err(HtlcError::MalformedMetadata));
}

#[test]
fn big_endian_amounts() {
    assert_eq!(read_be_u64(&vec![0, 0, 0, 0, 0, 0, 0x01, 0x02]), 0x0102);
    assert_eq!(read_be_u64(&vec![0xff; 8]), u64::MAX);
}

#[test]
fn hex_decoding() {
    assert_eq!(decode_hex("0aFf"), Some(vec![0x0a, 0xff]));
    assert_eq!(decode_hex(""), Some(vec![]));
    assert_eq!(decode_hex("abc"), None);
    assert_eq!(decode_hex("zz"), None);
}
