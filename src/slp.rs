use vstd::prelude::*;

use crate::error::HtlcError;
use vstd::arithmetic::div_mod::{
    lemma_basic_div, lemma_div_denominator, lemma_div_pos_is_pos, lemma_fundamental_div_mod,
};

verus! {

/// Position of the token id among the pushes of the metadata output
/// (after OP_RETURN, the protocol marker, the token type and the transaction type).
pub const TOKEN_ID_FIELD: usize = 4;

/// Offset from an output index to the position of that output's token amount.
pub const AMOUNT_OFFSET: usize = 4;

/// Length of a token id.
pub const TOKEN_ID_LEN: usize = 32;

/// Length of a token amount (big-endian).
pub const AMOUNT_LEN: usize = 8;

pub open spec fn vecs_view(v: Seq<Vec<u8>>) -> Seq<Seq<u8>> {
    v.map_values(|x: Vec<u8>| x@)
}

pub open spec fn fields_view(v: Seq<Option<Vec<u8>>>) -> Seq<Option<Seq<u8>>> {
    v.map_values(|x: Option<Vec<u8>>|
        match x {
            Some(d) => Some(d@),
            None => None,
        }
    )
}

/// The locking scripts of the outputs of the transaction that `raw` encodes,
/// or none where `raw` is not exactly one transaction.
pub uninterp spec fn tx_output_scripts(raw: Seq<u8>) -> Option<Seq<Seq<u8>>>;

/// The tokens of a script, each a pushed byte string or, for any other opcode,
/// nothing; none where the script does not parse.
pub uninterp spec fn script_pushes(script: Seq<u8>) -> Option<Seq<Option<Seq<u8>>>>;

/// Relies on bitcoin's consensus decoding of a `Transaction`, which fails
/// unless the bytes hold exactly one transaction; hands out each output's
/// locking script.
#[verifier::external_body]
pub(crate) fn decode_output_scripts(raw: &[u8]) -> (r: Option<Vec<Vec<u8>>>)
    ensures
        r is Some <==> tx_output_scripts(raw@) is Some,
        r is Some ==> vecs_view(r->Some_0@) == tx_output_scripts(raw@)->Some_0,
{
    let tx = bitcoin::consensus::encode::deserialize::<bitcoin::Transaction>(raw).ok()?;
    Some(tx.output.iter().map(|o| o.script_pubkey.to_bytes()).collect())
}

/// Relies on bitcoin's `Script::iter`: the script's instructions in order, a
/// push as its bytes and another opcode as nothing; none on a parse error.
#[verifier::external_body]
fn decode_script_pushes(script: &[u8]) -> (r: Option<Vec<Option<Vec<u8>>>>)
    ensures
        r is Some <==> script_pushes(script@) is Some,
        r is Some ==> fields_view(r->Some_0@) == script_pushes(script@)->Some_0,
{
    bitcoin::Script::from(script.to_vec()).iter(false).map(|ins| match ins {
        bitcoin::blockdata::script::Instruction::PushBytes(d) => Some(Some(d.to_vec())),
        bitcoin::blockdata::script::Instruction::Op(_) => Some(None),
        bitcoin::blockdata::script::Instruction::Error(_) => None,
    }).collect()
}

/// The value of a hex digit.
pub open spec fn hex_digit(c: char) -> Option<u8> {
    if '0' <= c && c <= '9' {
        Some((c as u32 - '0' as u32) as u8)
    } else if 'a' <= c && c <= 'f' {
        Some((c as u32 - 'a' as u32 + 10) as u8)
    } else if 'A' <= c && c <= 'F' {
        Some((c as u32 - 'A' as u32 + 10) as u8)
    } else {
        None
    }
}

/// An even number of hex digits.
pub open spec fn hex_ok(s: Seq<char>) -> bool {
    &&& s.len() % 2 == 0
    &&& forall|i: int| 0 <= i < s.len() ==> (#[trigger] hex_digit(s[i])) is Some
}

/// The bytes that a string of hex digits spells, two digits each, high first.
pub open spec fn hex_bytes(s: Seq<char>) -> Seq<u8> {
    Seq::new(
        s.len() / 2,
        |i: int| (hex_digit(s[2 * i])->Some_0 * 16 + hex_digit(s[2 * i + 1])->Some_0) as u8,
    )
}

fn hex_value(c: char) -> (r: Option<u8>)
    ensures
        r == hex_digit(c),
{
    if '0' <= c && c <= '9' {
        Some((c as u32 - '0' as u32) as u8)
    } else if 'a' <= c && c <= 'f' {
        Some((c as u32 - 'a' as u32 + 10) as u8)
    } else if 'A' <= c && c <= 'F' {
        Some((c as u32 - 'A' as u32 + 10) as u8)
    } else {
        None
    }
}

/// Decodes a string of hex digits; none unless it is an even number of them.
pub fn decode_hex(s: &str) -> (r: Option<Vec<u8>>)
    ensures
        r is Some <==> hex_ok(s@),
        r is Some ==> r->Some_0@ == hex_bytes(s@),
{
    let n = s.unicode_len();
    if n % 2 != 0 {
        return None;
    }
    let mut out: Vec<u8> = Vec::new();
    let mut i: usize = 0;
    while i < n / 2
        invariant
            n == s@.len(),
            n % 2 == 0,
            0 <= i <= n / 2,
            forall|j: int| 0 <= j < 2 * i ==> (#[trigger] hex_digit(s@[j])) is Some,
            out@ =~= hex_bytes(s@).take(i as int),
        decreases n / 2 - i,
    {
        let hi = hex_value(s.get_char(2 * i));
        let lo = hex_value(s.get_char(2 * i + 1));
        match (hi, lo) {
            (Some(h), Some(l)) => {
                out.push((h as u32 * 16 + l as u32) as u8);
                assert forall|j: int| 0 <= j < 2 * (i + 1) implies (#[trigger] hex_digit(
                    s@[j],
                )) is Some by {
                    if j >= 2 * i {
                        assert(j == 2 * i || j == 2 * i + 1);
                    }
                }
            },
            _ => {
                assert(!hex_ok(s@)) by {
                    if hi is None {
                        assert(hex_digit(s@[2 * i as int]) is None);
                    } else {
                        assert(hex_digit(s@[2 * i as int + 1]) is None);
                    }
                }
                return None;
            },
        }
        i = i + 1;
    }
    assert(out@ =~= hex_bytes(s@));
    Some(out)
}

/// The number that a byte string spells in big-endian order.
pub open spec fn be_value(s: Seq<u8>) -> nat
    decreases s.len(),
{
    if s.len() == 0 {
        0
    } else {
        be_value(s.drop_last()) * 256 + s.last() as nat
    }
}

pub open spec fn pow256(k: nat) -> nat
    decreases k,
{
    if k == 0 {
        1
    } else {
        256 * pow256((k - 1) as nat)
    }
}

/// Reads eight bytes as a big-endian unsigned integer.
pub fn read_be_u64(d: &Vec<u8>) -> (r: u64)
    requires
        d@.len() == AMOUNT_LEN,
    ensures
        r as nat == be_value(d@),
{
    assert(pow256(8) == 0x1_0000_0000_0000_0000) by {
        assert(pow256(0) == 1);
        assert(pow256(1) == 256);
        assert(pow256(2) == 0x1_0000);
        assert(pow256(3) == 0x100_0000);
        assert(pow256(4) == 0x1_0000_0000);
        assert(pow256(5) == 0x100_0000_0000);
        assert(pow256(6) == 0x1_0000_0000_0000);
        assert(pow256(7) == 0x100_0000_0000_0000);
    }
    let mut acc: u64 = 0;
    let mut i: usize = 0;
    while i < AMOUNT_LEN
        invariant
            d@.len() == AMOUNT_LEN,
            0 <= i <= AMOUNT_LEN,
            acc as nat == be_value(d@.take(i as int)),
            (acc as nat) < pow256(i as nat),
            pow256(8) == 0x1_0000_0000_0000_0000,
        decreases AMOUNT_LEN - i,
    {
        proof {
            lemma_pow256_mono(i as nat + 1, 8);
            let t = d@.take(i as int + 1);
            assert(t.drop_last() =~= d@.take(i as int));
            let a = acc as nat;
            let p = pow256(i as nat);
            let b = d@[i as int] as nat;
            assert(a * 256 + b < 256 * p) by (nonlinear_arith)
                requires
                    a < p,
                    b < 256,
            ;
        }
        acc = acc * 256 + d[i] as u64;
        i = i + 1;
    }
    assert(d@.take(8) =~= d@);
    acc
}

proof fn lemma_pow256_mono(a: nat, b: nat)
    requires
        a <= b,
    ensures
        pow256(a) <= pow256(b),
    decreases b,
{
    if a < b {
        lemma_pow256_mono(a, (b - 1) as nat);
    }
}

/// A push of `len` bytes stands at position `i`.
pub open spec fn push_of_len(f: Seq<Option<Seq<u8>>>, i: int, len: nat) -> bool {
    &&& 0 <= i < f.len()
    &&& f[i] is Some
    &&& f[i]->Some_0.len() == len
}

/// The token id and the amount of output `vout` stand where the metadata layout puts them.
pub open spec fn token_fields_ok(f: Seq<Option<Seq<u8>>>, vout: u32) -> bool {
    &&& push_of_len(f, TOKEN_ID_FIELD as int, TOKEN_ID_LEN as nat)
    &&& push_of_len(f, vout + AMOUNT_OFFSET, AMOUNT_LEN as nat)
}

/// The token id and the amount of output `vout` that the metadata pushes name.
pub open spec fn token_of_fields(f: Seq<Option<Seq<u8>>>, vout: u32) -> (Seq<u8>, nat) {
    (f[TOKEN_ID_FIELD as int]->Some_0, be_value(f[vout + AMOUNT_OFFSET]->Some_0))
}

/// Reads the token id and the amount of output `vout` from the pushes of a
/// token-metadata script.
pub fn token_amount_from_fields(fields: &Vec<Option<Vec<u8>>>, vout: u32) -> (r: Result<
    (Vec<u8>, u64),
    HtlcError,
>)
    ensures
        r is Ok <==> token_fields_ok(fields_view(fields@), vout),
        r is Ok ==> (r->Ok_0.0@, r->Ok_0.1 as nat) == token_of_fields(fields_view(fields@), vout),
        r is Err ==> r->Err_0 == HtlcError::MalformedMetadata,
{
    let ghost f = fields_view(fields@);
    if (vout as u64) >= (fields.len() as u64) || (fields.len() as u64) - (vout as u64)
        <= AMOUNT_OFFSET as u64 {
        return Err(HtlcError::MalformedMetadata);
    }
    let k: usize = vout as usize + AMOUNT_OFFSET;
    let id = match &fields[TOKEN_ID_FIELD] {
        Some(d) => {
            if d.len() != TOKEN_ID_LEN {
                return Err(HtlcError::MalformedMetadata);
            }
            d.clone()
        },
        None => {
            return Err(HtlcError::MalformedMetadata);
        },
    };
    let amount = match &fields[k] {
        Some(d) => {
            if d.len() != AMOUNT_LEN {
                return Err(HtlcError::MalformedMetadata);
            }
            read_be_u64(d)
        },
        None => {
            return Err(HtlcError::MalformedMetadata);
        },
    };
    Ok((id, amount))
}

/// The metadata pushes of the transaction that the hex string `s` spells:
/// those of its first output's script.
pub open spec fn metadata_fields(s: Seq<char>) -> Option<Seq<Option<Seq<u8>>>> {
    if !hex_ok(s) {
        None
    } else {
        match tx_output_scripts(hex_bytes(s)) {
            Some(outs) => if outs.len() > 0 {
                script_pushes(outs[0])
            } else {
                None
            },
            None => None,
        }
    }
}

/// Reads the token id and the token amount of output `vout` from the
/// hex-encoded funding transaction `tx_hex`.
pub fn get_utxo_token_amount(tx_hex: &str, vout: u32) -> (r: Result<(Vec<u8>, u64), HtlcError>)
    ensures
        r is Ok <==> (metadata_fields(tx_hex@) is Some && token_fields_ok(
            metadata_fields(tx_hex@)->Some_0,
            vout,
        )),
        r is Ok ==> (r->Ok_0.0@, r->Ok_0.1 as nat) == token_of_fields(
            metadata_fields(tx_hex@)->Some_0,
            vout,
        ),
        r is Err ==> r->Err_0 == HtlcError::MalformedMetadata,
{
    let raw = match decode_hex(tx_hex) {
        Some(raw) => raw,
        None => {
            return Err(HtlcError::MalformedMetadata);
        },
    };
    let outs = match decode_output_scripts(raw.as_slice()) {
        Some(outs) => outs,
        None => {
            return Err(HtlcError::MalformedMetadata);
        },
    };
    if outs.len() == 0 {
        return Err(HtlcError::MalformedMetadata);
    }
    proof {
        assert(vecs_view(outs@)[0] == outs@[0]@);
    }
    let fields = match decode_script_pushes(outs[0].as_slice()) {
        Some(fields) => fields,
        None => {
            return Err(HtlcError::MalformedMetadata);
        },
    };
    token_amount_from_fields(&fields, vout)
}

/// The eight big-endian bytes of `n`.
pub open spec fn be8(n: u64) -> Seq<u8> {
    Seq::new(8, |i: int| ((n as nat / pow256((7 - i) as nat)) % 256) as u8)
}

proof fn lemma_pow256_8()
    ensures
        pow256(8) == 0x1_0000_0000_0000_0000,
{
    assert(pow256(0) == 1);
    assert(pow256(1) == 256);
    assert(pow256(2) == 0x1_0000);
    assert(pow256(3) == 0x100_0000);
    assert(pow256(4) == 0x1_0000_0000);
    assert(pow256(5) == 0x100_0000_0000);
    assert(pow256(6) == 0x1_0000_0000_0000);
    assert(pow256(7) == 0x100_0000_0000_0000);
}

proof fn lemma_be8_prefix(n: u64, i: nat)
    requires
        i <= 8,
    ensures
        be_value(be8(n).take(i as int)) == n as nat / pow256((8 - i) as nat),
    decreases i,
{
    let s = be8(n);
    if i == 0 {
        lemma_pow256_8();
        lemma_basic_div(n as int, pow256(8) as int);
        assert(s.take(0) =~= Seq::<u8>::empty());
    } else {
        lemma_be8_prefix(n, (i - 1) as nat);
        let p = pow256((8 - i) as nat);
        lemma_pow256_pos((8 - i) as nat);
        assert(pow256((9 - i) as nat) == 256 * p);
        let t = s.take(i as int);
        assert(t.drop_last() =~= s.take(i - 1));
        assert(t.last() == ((n as nat / p) % 256) as u8);
        let x = n as int / p as int;
        lemma_div_pos_is_pos(n as int, p as int);
        lemma_div_denominator(n as int, p as int, 256);
        lemma_fundamental_div_mod(x, 256);
    }
}

/// Eight big-endian bytes read back as the number they were written from.
pub proof fn lemma_be8_round_trip(n: u64)
    ensures
        be_value(be8(n)) == n as nat,
{
    lemma_be8_prefix(n, 8);
    assert(be8(n).take(8) =~= be8(n));
    assert(pow256(0) == 1);
    assert(n as nat / 1 == n as nat);
}

proof fn lemma_pow256_pos(k: nat)
    ensures
        pow256(k) > 0,
    decreases k,
{
    if k > 0 {
        lemma_pow256_pos((k - 1) as nat);
    }
}

/// Metadata pushes laid out as the token protocol writes them (a token id of
/// 32 bytes at its place, then each output's amount as eight big-endian bytes)
/// give back, for output `j + 1`, that token id and the `j`-th amount.
pub proof fn lemma_token_round_trip(
    f: Seq<Option<Seq<u8>>>,
    token_id: Seq<u8>,
    amounts: Seq<u64>,
    j: int,
)
    requires
        token_id.len() == TOKEN_ID_LEN,
        0 <= j < amounts.len(),
        amounts.len() + AMOUNT_OFFSET + 1 <= f.len(),
        f[TOKEN_ID_FIELD as int] == Some(token_id),
        forall|m: int| 0 <= m < amounts.len() ==> f[AMOUNT_OFFSET + 1 + m] == Some(be8(#[trigger] amounts[m])),
        j + 1 <= u32::MAX,
    ensures
        token_fields_ok(f, (j + 1) as u32),
        token_of_fields(f, (j + 1) as u32) == (token_id, amounts[j] as nat),
{
    assert(f[AMOUNT_OFFSET + 1 + j] == Some(be8(amounts[j])));
    lemma_be8_round_trip(amounts[j]);
}

} // verus!
