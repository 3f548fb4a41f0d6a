use vstd::prelude::*;

use crate::error::HtlcError;
use crate::contract::{
    bytes_equal, contract_sequence, spend_version_lock_time, SignatoryView, SlpHtlcSignatory,
};
use crate::slp::{decode_hex, decode_output_scripts, hex_bytes, hex_ok, tx_output_scripts, vecs_view};

verus! {

/// Number of hex digits of a transaction id.
pub const TXID_HEX_LEN: usize = 64;

/// Where a contract output was placed: the funding transaction's id as it is
/// written (display order) and the output's index.
pub struct ContractOutpoint {
    pub txid: Vec<u8>,
    pub vout: u32,
}

/// Position of the first `:` in `s`, if any.
pub open spec fn colon_index(s: Seq<char>) -> Option<int>
    decreases s.len(),
{
    if s.len() == 0 {
        None
    } else {
        match colon_index(s.drop_last()) {
            Some(i) => Some(i),
            None => if s.last() == ':' {
                Some(s.len() - 1)
            } else {
                None
            },
        }
    }
}

pub open spec fn is_digit(c: char) -> bool {
    '0' <= c && c <= '9'
}

/// A non-empty string of decimal digits.
pub open spec fn digits_ok(s: Seq<char>) -> bool {
    &&& s.len() > 0
    &&& forall|i: int| 0 <= i < s.len() ==> is_digit(#[trigger] s[i])
}

/// The number that a string of decimal digits spells.
pub open spec fn decimal_value(s: Seq<char>) -> nat
    decreases s.len(),
{
    if s.len() == 0 {
        0
    } else {
        decimal_value(s.drop_last()) * 10 + (s.last() as u32 - '0' as u32) as nat
    }
}

/// What `<txid>:<vout>` spells: 64 hex digits, a colon, and a decimal output
/// index that fits 32 bits.
pub open spec fn outpoint_of(s: Seq<char>) -> Option<(Seq<u8>, u32)> {
    match colon_index(s) {
        Some(i) => {
            let t = s.take(i);
            let v = s.skip(i + 1);
            if t.len() == TXID_HEX_LEN && hex_ok(t) && digits_ok(v) && decimal_value(v)
                <= u32::MAX {
                Some((hex_bytes(t), decimal_value(v) as u32))
            } else {
                None
            }
        },
        None => None,
    }
}

proof fn lemma_decimal_prefix_grows(s: Seq<char>, j: int)
    requires
        0 <= j <= s.len(),
        forall|i: int| 0 <= i < s.len() ==> is_digit(#[trigger] s[i]),
    ensures
        decimal_value(s.take(j)) <= decimal_value(s),
    decreases s.len() - j,
{
    if j < s.len() {
        lemma_decimal_prefix_grows(s, j + 1);
        assert(s.take(j + 1).drop_last() =~= s.take(j));
    } else {
        assert(s.take(j) =~= s);
    }
}

proof fn lemma_colon_index_props(s: Seq<char>)
    ensures
        match colon_index(s) {
            Some(i) => 0 <= i < s.len() && s[i] == ':',
            None => true,
        },
    decreases s.len(),
{
    if s.len() > 0 {
        lemma_colon_index_props(s.drop_last());
    }
}

proof fn lemma_colon_index_extends(s: Seq<char>, k: int)
    requires
        0 <= k <= s.len(),
        colon_index(s.take(k)) is Some,
    ensures
        colon_index(s) == colon_index(s.take(k)),
    decreases s.len() - k,
{
    if k < s.len() {
        assert(s.take(k + 1).drop_last() =~= s.take(k));
        lemma_colon_index_extends(s, k + 1);
    } else {
        assert(s.take(k) =~= s);
    }
}

fn find_colon(s: &str) -> (r: Option<usize>)
    ensures
        match r {
            Some(i) => colon_index(s@) == Some(i as int),
            None => colon_index(s@) is None,
        },
{
    let n = s.unicode_len();
    let mut i: usize = 0;
    while i < n
        invariant
            n == s@.len(),
            0 <= i <= n,
            colon_index(s@.take(i as int)) is None,
        decreases n - i,
    {
        proof {
            assert(s@.take(i as int + 1).drop_last() =~= s@.take(i as int));
        }
        if s.get_char(i) == ':' {
            proof {
                lemma_colon_index_extends(s@, i as int + 1);
            }
            return Some(i);
        }
        i = i + 1;
    }
    assert(s@.take(n as int) =~= s@);
    None
}

/// Parses `<txid>:<vout>`, the place of an escrow's funding output.
pub fn parse_outpoint(s: &str) -> (r: Result<ContractOutpoint, HtlcError>)
    ensures
        r is Ok <==> outpoint_of(s@) is Some,
        r is Ok ==> (r->Ok_0.txid@, r->Ok_0.vout) == outpoint_of(s@)->Some_0,
        r is Err ==> r->Err_0 == HtlcError::ConfigurationError,
{
    let c = match find_colon(s) {
        Some(c) => c,
        None => {
            return Err(HtlcError::ConfigurationError);
        },
    };
    proof {
        lemma_colon_index_props(s@);
    }
    if c != TXID_HEX_LEN {
        return Err(HtlcError::ConfigurationError);
    }
    let n = s.unicode_len();
    let ghost t = s@.take(c as int);
    let ghost v = s@.skip(c as int + 1);
    let txid_str = s.substring_char(0, c);
    assert(txid_str@ =~= t);
    let txid = match decode_hex(txid_str) {
        Some(b) => b,
        None => {
            return Err(HtlcError::ConfigurationError);
        },
    };
    if c + 1 >= n {
        return Err(HtlcError::ConfigurationError);
    }
    let mut acc: u64 = 0;
    let mut i: usize = c + 1;
    while i < n
        invariant
            n == s@.len(),
            c + 1 <= i <= n,
            v == s@.skip(c as int + 1),
            colon_index(s@) == Some(c as int),
            c == TXID_HEX_LEN,
            hex_ok(s@.take(c as int)),
            txid@ == hex_bytes(s@.take(c as int)),
            forall|j: int| 0 <= j < i - (c + 1) ==> is_digit(#[trigger] v[j]),
            acc as nat == decimal_value(v.take(i - (c + 1))),
            acc <= u32::MAX,
        decreases n - i,
    {
        let ch = s.get_char(i);
        proof {
            assert(v[i - (c + 1)] == ch);
        }
        if !('0' <= ch && ch <= '9') {
            return Err(HtlcError::ConfigurationError);
        }
        proof {
            assert(v.take(i - c).drop_last() =~= v.take(i - (c + 1)));
        }
        acc = acc * 10 + (ch as u32 - '0' as u32) as u64;
        if acc > u32::MAX as u64 {
            proof {
                if digits_ok(v) {
                    lemma_decimal_prefix_grows(v, i - c);
                }
            }
            return Err(HtlcError::ConfigurationError);
        }
        i = i + 1;
    }
    assert(v.take(n - (c + 1)) =~= v);
    Ok(ContractOutpoint { txid, vout: acc as u32 })
}

/// The bytes of `s` in reverse order.
pub open spec fn reversed(s: Seq<u8>) -> Seq<u8> {
    Seq::new(s.len(), |i: int| s[s.len() - 1 - i])
}

impl ContractOutpoint {
    /// The transaction id in the byte order that transactions refer to it by
    /// (the reverse of how it is written).
    pub fn tx_hash(&self) -> (r: Vec<u8>)
        ensures
            r@ == reversed(self.txid@),
    {
        let n = self.txid.len();
        let mut v: Vec<u8> = Vec::new();
        let mut i: usize = 0;
        while i < n
            invariant
                n == self.txid@.len(),
                0 <= i <= n,
                v@ =~= reversed(self.txid@).take(i as int),
            decreases n - i,
        {
            v.push(self.txid[n - 1 - i]);
            i = i + 1;
        }
        v
    }
}

/// Where the key of the party that spends comes from.
pub enum KeySource {
    /// A secret key given in hex.
    SecretKey(String),
    /// The wallet's key behind an address.
    WalletAddress(String),
}

/// Picks the source of the spending key: exactly one of a secret key and a
/// wallet address must be given.
pub fn resolve_key_source(secret_key: Option<String>, address: Option<String>) -> (r: Result<
    KeySource,
    HtlcError,
>)
    ensures
        r is Ok <==> (secret_key is Some) != (address is Some),
        r is Err ==> r->Err_0 == HtlcError::ConfigurationError,
        secret_key is Some && address is None ==> r == Ok::<KeySource, HtlcError>(
            KeySource::SecretKey(secret_key->Some_0),
        ),
        secret_key is None && address is Some ==> r == Ok::<KeySource, HtlcError>(
            KeySource::WalletAddress(address->Some_0),
        ),
{
    match (secret_key, address) {
        (Some(k), None) => Ok(KeySource::SecretKey(k)),
        (None, Some(a)) => Ok(KeySource::WalletAddress(a)),
        _ => Err(HtlcError::ConfigurationError),
    }
}

/// A response that starts with `error`.
pub open spec fn is_error_response(s: Seq<char>) -> bool {
    &&& s.len() >= 5
    &&& s[0] == 'e'
    &&& s[1] == 'r'
    &&& s[2] == 'r'
    &&& s[3] == 'o'
    &&& s[4] == 'r'
}

/// Reads the answer of a broadcast: an answer starting with `error` is a
/// rejection, anything else is the new transaction's id.
pub fn check_broadcast(response: &str) -> (r: Result<(), HtlcError>)
    ensures
        r is Err <==> is_error_response(response@),
        r is Err ==> r->Err_0 == HtlcError::BroadcastRejected,
{
    if response.unicode_len() >= 5 && response.get_char(0) == 'e' && response.get_char(1) == 'r'
        && response.get_char(2) == 'r' && response.get_char(3) == 'o' && response.get_char(4)
        == 'r' {
        Err(HtlcError::BroadcastRejected)
    } else {
        Ok(())
    }
}

/// The answer that marks a valid token transaction.
pub open spec fn is_valid_answer(s: Seq<char>) -> bool {
    s == seq!['V', 'a', 'l', 'i', 'd']
}

/// What the validation step does next.
pub enum ValidationAction {
    /// Ask the validator again.
    Retry,
    /// The validator answered: valid or not.
    Done(bool),
}

/// One step of the validation of a funding transaction: a failed round trip
/// (`None`) is asked again; an answer decides, `Valid` meaning valid.
pub fn validation_step(response: Option<&str>) -> (r: ValidationAction)
    ensures
        response is None ==> r == ValidationAction::Retry,
        response is Some ==> r == ValidationAction::Done(is_valid_answer(response->Some_0@)),
{
    match response {
        None => ValidationAction::Retry,
        Some(s) => {
            let ok = s.unicode_len() == 5 && s.get_char(0) == 'V' && s.get_char(1) == 'a'
                && s.get_char(2) == 'l' && s.get_char(3) == 'i' && s.get_char(4) == 'd';
            proof {
                if ok {
                    assert(s@ =~= seq!['V', 'a', 'l', 'i', 'd']);
                }
            }
            ValidationAction::Done(ok)
        },
    }
}

/// Index of the first script in `scripts` equal to `target`.
pub open spec fn first_match(scripts: Seq<Seq<u8>>, target: Seq<u8>) -> Option<int>
    decreases scripts.len(),
{
    if scripts.len() == 0 {
        None
    } else {
        match first_match(scripts.drop_last(), target) {
            Some(i) => Some(i),
            None => if scripts.last() == target {
                Some(scripts.len() - 1)
            } else {
                None
            },
        }
    }
}

proof fn lemma_first_match_extends(s: Seq<Seq<u8>>, t: Seq<u8>, k: int)
    requires
        0 <= k <= s.len(),
        first_match(s.take(k), t) is Some,
    ensures
        first_match(s, t) == first_match(s.take(k), t),
    decreases s.len() - k,
{
    if k < s.len() {
        assert(s.take(k + 1).drop_last() =~= s.take(k));
        lemma_first_match_extends(s, t, k + 1);
    } else {
        assert(s.take(k) =~= s);
    }
}

/// The index of the first output script that equals `escrow` byte for byte.
pub fn find_script(scripts: &Vec<Vec<u8>>, escrow: &Vec<u8>) -> (r: Result<usize, HtlcError>)
    ensures
        match r {
            Ok(i) => first_match(vecs_view(scripts@), escrow@) == Some(i as int),
            Err(e) => first_match(vecs_view(scripts@), escrow@) is None && e
                == HtlcError::ContractOutputNotFound,
        },
{
    let ghost sv = vecs_view(scripts@);
    let mut i: usize = 0;
    while i < scripts.len()
        invariant
            sv == vecs_view(scripts@),
            0 <= i <= scripts@.len(),
            first_match(sv.take(i as int), escrow@) is None,
        decreases scripts@.len() - i,
    {
        proof {
            assert(sv.take(i as int + 1).drop_last() =~= sv.take(i as int));
            assert(sv[i as int] == scripts@[i as int]@);
        }
        if bytes_equal(&scripts[i], escrow) {
            proof {
                lemma_first_match_extends(sv, escrow@, i as int + 1);
            }
            return Ok(i);
        }
        i = i + 1;
    }
    assert(sv.take(scripts@.len() as int) =~= sv);
    Err(HtlcError::ContractOutputNotFound)
}

/// The index of the output of the hex-encoded funding transaction `tx_hex`
/// that pays to the escrow script `escrow`.
pub fn contract_output_index(tx_hex: &str, escrow: &Vec<u8>) -> (r: Result<usize, HtlcError>)
    ensures
        !hex_ok(tx_hex@) || tx_output_scripts(hex_bytes(tx_hex@)) is None ==> r
            == Err::<usize, HtlcError>(HtlcError::MalformedMetadata),
        hex_ok(tx_hex@) && tx_output_scripts(hex_bytes(tx_hex@)) is Some ==> match r {
            Ok(i) => first_match(tx_output_scripts(hex_bytes(tx_hex@))->Some_0, escrow@) == Some(
                i as int,
            ),
            Err(e) => first_match(tx_output_scripts(hex_bytes(tx_hex@))->Some_0, escrow@) is None
                && e == HtlcError::ContractOutputNotFound,
        },
{
    let raw = match decode_hex(tx_hex) {
        Some(raw) => raw,
        None => {
            return Err(HtlcError::MalformedMetadata);
        },
    };
    let outs = match decode_output_scripts(raw.as_slice()) {
        Some(outs) => outs,
        None => {
            return Err(HtlcError::MalformedMetadata);
        },
    };
    find_script(&outs, escrow)
}

/// The value of a dust output: the least that the network relays.
pub const DUST_AMOUNT: u64 = 546;

/// The shape of the transaction that spends an escrow: input 0 is the contract
/// output, output 0 the token metadata (worth nothing), output 1 a dust output
/// to the recipient, and a change output whose value comes last.
pub struct SpendPlan {
    pub version: i32,
    pub lock_time: u32,
    pub contract_sequence: u32,
    /// Value of the contract output being spent.
    pub contract_value: u64,
    /// Value of the token metadata output.
    pub token_output_value: u64,
    /// Value of the recipient's dust output.
    pub recipient_value: u64,
}

/// The shape of the transaction that spends an escrow with timeout `timeout`
/// on the branch of `signatory`.
pub fn spend_plan(signatory: &SlpHtlcSignatory, timeout: u32) -> (r: SpendPlan)
    ensures
        (r.version, r.lock_time) == spend_version_lock_time(signatory@, timeout),
        r.contract_sequence == contract_sequence(signatory@),
        r.contract_value == DUST_AMOUNT,
        r.token_output_value == 0,
        r.recipient_value == DUST_AMOUNT,
        signatory@ is Timeout ==> r.lock_time == timeout && r.contract_sequence < u32::MAX,
        signatory@ is Redeem ==> r.contract_sequence == u32::MAX,
{
    let (version, lock_time) = signatory.version_and_lock_time(timeout);
    SpendPlan {
        version,
        lock_time,
        contract_sequence: signatory.contract_sequence(),
        contract_value: DUST_AMOUNT,
        token_output_value: 0,
        recipient_value: DUST_AMOUNT,
    }
}

/// Byte-wise equality of two strings, character by character.
pub fn str_equal(a: &str, b: &str) -> (r: bool)
    ensures
        r == (a@ == b@),
{
    let n = a.unicode_len();
    if n != b.unicode_len() {
        return false;
    }
    let mut i: usize = 0;
    while i < n
        invariant
            n == a@.len(),
            n == b@.len(),
            0 <= i <= n,
            forall|j: int| 0 <= j < i ==> a@[j] == b@[j],
        decreases n - i,
    {
        if a.get_char(i) != b.get_char(i) {
            return false;
        }
        i = i + 1;
    }
    assert(a@ =~= b@);
    true
}

/// Accepts an address of this network (`prefix`) that pays to a public key
/// hash; anything else is a configuration error.
pub fn check_address(address_prefix: &str, prefix: &str, is_p2pkh: bool) -> (r: Result<(), HtlcError>)
    ensures
        r is Ok <==> (address_prefix@ == prefix@ && is_p2pkh),
        r is Err ==> r->Err_0 == HtlcError::ConfigurationError,
{
    if !str_equal(address_prefix, prefix) || !is_p2pkh {
        return Err(HtlcError::ConfigurationError);
    }
    Ok(())
}

} // verus!
