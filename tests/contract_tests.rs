use slp_htlc::contract::{hash160, script, SlpHtlcParams, SlpHtlcSignatory, SIG_HASH_DEFAULT};
use slp_htlc::error::HtlcError;
use slp_htlc::script::{script_num_bytes, serialize_ops, write_op, ScriptOp};

fn params(timeout: u32) -> SlpHtlcParams {
    SlpHtlcParams::new(vec![0x11; 20], vec![0x22; 20], vec![0x33; 20], timeout).unwrap()
}

fn push_data(op: &ScriptOp) -> Option<Vec<u8>> {
    match op {
        ScriptOp::Push(d) => Some(d.clone()),
        _ => None,
    }
}

#[test]
fn hash160_of_empty_input() {
    assert_eq!(hex::encode(hash160(&[])), "b472a266d0bd89c13706a4132ccfb16f7c3b9fcb");
}

#[test]
fn locking_script_bytes() {
    let p = params(500000);
    let mut want = vec![0x63, 0xa9, 0x14];
    want.extend(vec![0x11; 20]);
    want.extend([0x88, 0x14]);
    want.extend(vec![0x22; 20]);
    want.extend([0x67, 0x03, 0x20, 0xa1, 0x07, 0xb1, 0x75, 0x14]);
    want.extend(vec![0x33; 20]);
    want.extend([0x68, 0x78, 0xa9, 0x88, 0xac]);
    assert_eq!(script(&p), want);
    assert_eq!(p.script(), want);
}

#[test]
fn locking_script_is_deterministic() {
    let a = params(1234);
    let b = params(1234);
    assert_eq!(script(&a), script(&b));
    assert_eq!(a.escrow_script(), b.escrow_script());
    assert_eq!(a.escrow_script(), a.escrow_script());
    assert_ne!(script(&a), script(&params(1235)));
}

#[test]
fn escrow_script_hashes_locking_script() {
    let p = params(700);
    let e = p.escrow_script();
    let mut want = vec![0xa9, 0x14];
    want.extend(hash160(&script(&p)));
    want.push(0x87);
    assert_eq!(e, want);
    assert_eq!(e.len(), 23);
}

#[test]
fn timeout_500000_is_three_bytes() {
    assert_eq!(script_num_bytes(500000), vec![0x20, 0xa1, 0x07]);
    let mut out = Vec::new();
    write_op(&ScriptOp::Int(500000), &mut out);
    assert_eq!(out, vec![0x03, 0x20, 0xa1, 0x07]);
}

#[test]
fn timeout_boundaries() {
    let zero = params(0);
    let mut out = Vec::new();
    write_op(&ScriptOp::Int(zero.timeout), &mut out);
    assert_eq!(out, vec![0x00]);
    let max = params(0x7fff_ffff);
    let mut out = Vec::new();
    write_op(&ScriptOp::Int(max.timeout), &mut out);
    assert_eq!(out, vec![0x04, 0xff, 0xff, 0xff, 0x7f]);
    let r = SlpHtlcParams::new(vec![0; 20], vec![0; 20], vec![0; 20], 0x8000_0000);
    assert!(matches!(r, Err(HtlcError::InvalidParameter)));
}

#[test]
fn script_numbers_need_a_sign_byte() {
    assert_eq!(script_num_bytes(0), Vec::<u8>::new());
    assert_eq!(script_num_bytes(17), vec![17]);
    assert_eq!(script_num_bytes(128), vec![0x80, 0x00]);
    assert_eq!(script_num_bytes(0x0080_0000), vec![0x00, 0x00, 0x80, 0x00]);
    let mut out = Vec::new();
    write_op(&ScriptOp::Int(16), &mut out);
    assert_eq!(out, vec![0x60]);
}

#[test]
fn serialize_mixed_tokens() {
    let ops = vec![ScriptOp::Code(0x76), ScriptOp::Push(vec![1, 2, 3]), ScriptOp::Bool(true), ScriptOp::Bool(false)];
    assert_eq!(serialize_ops(&ops), vec![0x76, 0x03, 1, 2, 3, 0x51, 0x00]);
}

#[test]
fn bad_hash_lengths_are_rejected() {
    let r = SlpHtlcParams::new(vec![0; 19], vec![0; 20], vec![0; 20], 10);
    assert!(matches!(r, Err(HtlcError::InvalidParameter)));
    let r = SlpHtlcParams::new(vec![0; 20], vec![0; 21], vec![0; 20], 10);
    assert!(matches!(r, Err(HtlcError::InvalidParameter)));
}

#[test]
fn redeem_unlocking_pushes_secret_and_true() {
    let s = SlpHtlcSignatory::Redeem { seller_pk: vec![2; 33], secret: vec![9; 32] };
    let ops = s.build_script(&vec![0x30, 0x01]);
    assert_eq!(ops.len(), 4);
    assert_eq!(push_data(&ops[0]), Some(vec![0x30, 0x01, SIG_HASH_DEFAULT]));
    assert_eq!(push_data(&ops[1]), Some(vec![2; 33]));
    assert_eq!(push_data(&ops[2]), Some(vec![9; 32]));
    assert!(matches!(ops[3], ScriptOp::Bool(true)));
}

#[test]
fn timeout_unlocking_pushes_no_secret() {
    let s = SlpHtlcSignatory::Timeout { buyer_pk: vec![3; 33] };
    let ops = s.build_script(&vec![0x30]);
    assert_eq!(ops.len(), 3);
    assert_eq!(push_data(&ops[0]), Some(vec![0x30, 0x41]));
    assert_eq!(push_data(&ops[1]), Some(vec![3; 33]));
    assert!(matches!(ops[2], ScriptOp::Bool(false)));
}

#[test]
fn zero_secret_redeem() {
    let zero = vec![0u8; 32];
    let h = hash160(&zero);
    assert_eq!(h.len(), 20);
    assert_ne!(h, zero[..20].to_vec());
    let p = SlpHtlcParams::new(h, vec![0x22; 20], vec![0x33; 20], 100).unwrap();
    assert!(p.secret_matches(&zero));
    let mut other = zero.clone();
    other[31] = 1;
    assert!(!p.secret_matches(&other));
    let good = SlpHtlcSignatory::Redeem { seller_pk: vec![2; 33], secret: zero.clone() };
    let bad = SlpHtlcSignatory::Redeem { seller_pk: vec![2; 33], secret: other };
    let g = good.build_script(&vec![1]);
    let b = bad.build_script(&vec![1]);
    assert_eq!(push_data(&g[2]), Some(zero));
    assert_ne!(push_data(&g[2]), push_data(&b[2]));
}

#[test]
fn spend_shape_per_branch() {
    let r = SlpHtlcSignatory::Redeem { seller_pk: vec![2; 33], secret: vec![1] };
    let t = SlpHtlcSignatory::Timeout { buyer_pk: vec![3; 33] };
    assert_eq!(r.contract_sequence(), 0xffff_ffff);
    assert_eq!(t.contract_sequence(), 0xffff_fffe);
    assert_eq!(r.version_and_lock_time(500000), (1, 0));
    assert_eq!(t.version_and_lock_time(500000), (2, 500000));
    assert_eq!(r.sig_hash_flags(), 0x41);
    assert_eq!(t.placeholder_signatures(), vec![0u8; 73]);
}
