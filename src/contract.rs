use vstd::prelude::*;

use crate::error::HtlcError;
use crate::script::{
    ops_bytes, ops_serializable, ops_view, serialize_ops, OpView, ScriptOp, MAX_SCRIPT_INT, OP_CHECKLOCKTIMEVERIFY,
    OP_CHECKSIG, OP_DROP, OP_ELSE, OP_ENDIF, OP_EQUAL, OP_EQUALVERIFY, OP_HASH160, OP_IF, OP_OVER,
};

verus! {

/// Length of a HASH160 digest.
pub const HASH160_LEN: usize = 20;

/// Largest DER signature, before the hash-type byte.
pub const MAX_SIGNATURE_SIZE: usize = 73;

/// The hash type that every signature of this library commits to (ALL | FORKID).
pub const SIG_HASH_DEFAULT: u8 = 0x41;

/// Sequence number of an input without relative time lock.
pub const SEQUENCE_FINAL: u32 = 0xffff_ffff;

/// HASH160 (RIPEMD-160 of SHA-256) of a byte string.
pub uninterp spec fn hash160_of(data: Seq<u8>) -> Seq<u8>;

/// Relies on bitcoin_hashes' hash160::Hash::hash: the 20-byte HASH160 digest
/// of the input, which depends on the input alone.
#[verifier::external_body]
fn hash160_digest(data: &[u8]) -> (r: Vec<u8>)
    ensures
        r@ == hash160_of(data@),
        r@.len() == HASH160_LEN,
{
    let digest = <bitcoin::hashes::hash160::Hash as bitcoin::hashes::Hash>::hash(data);
    bitcoin::hashes::Hash::into_inner(digest).to_vec()
}

/// The HASH160 of `data`: how a secret becomes the escrow's secret hash, and a
/// public key its owner's key hash.
pub fn hash160(data: &[u8]) -> (r: Vec<u8>)
    ensures
        r@ == hash160_of(data@),
        r@.len() == HASH160_LEN,
{
    hash160_digest(data)
}

/// The parameters of one escrow: they fix its locking script and hence its address.
pub struct SlpHtlcParams {
    pub secret_hash: Vec<u8>,
    pub seller_pkh: Vec<u8>,
    pub buyer_pkh: Vec<u8>,
    pub timeout: u32,
}

pub struct HtlcParamsView {
    pub secret_hash: Seq<u8>,
    pub seller_pkh: Seq<u8>,
    pub buyer_pkh: Seq<u8>,
    pub timeout: u32,
}

impl View for SlpHtlcParams {
    type V = HtlcParamsView;

    open spec fn view(&self) -> HtlcParamsView {
        HtlcParamsView {
            secret_hash: self.secret_hash@,
            seller_pkh: self.seller_pkh@,
            buyer_pkh: self.buyer_pkh@,
            timeout: self.timeout,
        }
    }
}

impl HtlcParamsView {
    /// Three 20-byte hashes and a timeout that fits a script integer.
    pub open spec fn wf(self) -> bool {
        &&& self.secret_hash.len() == HASH160_LEN
        &&& self.seller_pkh.len() == HASH160_LEN
        &&& self.buyer_pkh.len() == HASH160_LEN
        &&& self.timeout <= MAX_SCRIPT_INT
    }
}

/// The escrow's locking script as tokens: the redeem branch checks the secret's
/// hash and selects the seller's key hash, the timeout branch checks the lock
/// time and selects the buyer's; both then check key hash and signature.
pub open spec fn locking_ops(p: HtlcParamsView) -> Seq<OpView> {
    seq![
        OpView::Code(OP_IF),
        OpView::Code(OP_HASH160),
        OpView::Push(p.secret_hash),
        OpView::Code(OP_EQUALVERIFY),
        OpView::Push(p.seller_pkh),
        OpView::Code(OP_ELSE),
        OpView::Int(p.timeout),
        OpView::Code(OP_CHECKLOCKTIMEVERIFY),
        OpView::Code(OP_DROP),
        OpView::Push(p.buyer_pkh),
        OpView::Code(OP_ENDIF),
        OpView::Code(OP_OVER),
        OpView::Code(OP_HASH160),
        OpView::Code(OP_EQUALVERIFY),
        OpView::Code(OP_CHECKSIG),
    ]
}

/// The escrow's locking script as bytes.
pub open spec fn locking_bytes(p: HtlcParamsView) -> Seq<u8> {
    ops_bytes(locking_ops(p))
}

/// The pay-to-script-hash script that pays to the escrow.
pub open spec fn escrow_bytes(p: HtlcParamsView) -> Seq<u8> {
    ops_bytes(
        seq![
            OpView::Code(OP_HASH160),
            OpView::Push(hash160_of(locking_bytes(p))),
            OpView::Code(OP_EQUAL),
        ],
    )
}

impl SlpHtlcParams {
    /// Checks and gathers the parameters of an escrow.
    pub fn new(secret_hash: Vec<u8>, seller_pkh: Vec<u8>, buyer_pkh: Vec<u8>, timeout: u32) -> (r:
        Result<SlpHtlcParams, HtlcError>)
        ensures
            r is Ok <==> (HtlcParamsView {
                secret_hash: secret_hash@,
                seller_pkh: seller_pkh@,
                buyer_pkh: buyer_pkh@,
                timeout,
            }).wf(),
            r is Ok ==> r->Ok_0@ == (HtlcParamsView {
                secret_hash: secret_hash@,
                seller_pkh: seller_pkh@,
                buyer_pkh: buyer_pkh@,
                timeout,
            }),
            r is Err ==> r->Err_0 == HtlcError::InvalidParameter,
    {
        if secret_hash.len() != HASH160_LEN || seller_pkh.len() != HASH160_LEN || buyer_pkh.len()
            != HASH160_LEN || timeout > MAX_SCRIPT_INT {
            return Err(HtlcError::InvalidParameter);
        }
        Ok(SlpHtlcParams { secret_hash, seller_pkh, buyer_pkh, timeout })
    }

    /// The locking script as tokens.
    pub fn script_ops(&self) -> (r: Vec<ScriptOp>)
        ensures
            ops_view(r@) == locking_ops(self@),
    {
        let mut v: Vec<ScriptOp> = Vec::new();
        v.push(ScriptOp::Code(OP_IF));
        v.push(ScriptOp::Code(OP_HASH160));
        v.push(ScriptOp::Push(self.secret_hash.clone()));
        v.push(ScriptOp::Code(OP_EQUALVERIFY));
        v.push(ScriptOp::Push(self.seller_pkh.clone()));
        v.push(ScriptOp::Code(OP_ELSE));
        v.push(ScriptOp::Int(self.timeout));
        v.push(ScriptOp::Code(OP_CHECKLOCKTIMEVERIFY));
        v.push(ScriptOp::Code(OP_DROP));
        v.push(ScriptOp::Push(self.buyer_pkh.clone()));
        v.push(ScriptOp::Code(OP_ENDIF));
        v.push(ScriptOp::Code(OP_OVER));
        v.push(ScriptOp::Code(OP_HASH160));
        v.push(ScriptOp::Code(OP_EQUALVERIFY));
        v.push(ScriptOp::Code(OP_CHECKSIG));
        assert(ops_view(v@) =~= locking_ops(self@));
        v
    }

    /// The locking script as bytes.
    pub fn script(&self) -> (r: Vec<u8>)
        requires
            self@.wf(),
        ensures
            r@ == locking_bytes(self@),
    {
        script(self)
    }

    /// The pay-to-script-hash script of the escrow, which the funding
    /// transaction pays the tokens to.
    pub fn escrow_script(&self) -> (r: Vec<u8>)
        requires
            self@.wf(),
        ensures
            r@ == escrow_bytes(self@),
    {
        let lock = script(self);
        let h = hash160(lock.as_slice());
        let mut v: Vec<ScriptOp> = Vec::new();
        v.push(ScriptOp::Code(OP_HASH160));
        v.push(ScriptOp::Push(h));
        v.push(ScriptOp::Code(OP_EQUAL));
        let ghost want = seq![
            OpView::Code(OP_HASH160),
            OpView::Push(hash160_of(locking_bytes(self@))),
            OpView::Code(OP_EQUAL),
        ];
        assert(ops_view(v@) =~= want);
        assert(ops_serializable(ops_view(v@)));
        serialize_ops(&v)
    }

    /// Whether `secret` opens the redeem branch: its HASH160 is the secret hash.
    pub fn secret_matches(&self, secret: &[u8]) -> (r: bool)
        ensures
            r == (hash160_of(secret@) == self.secret_hash@),
    {
        let h = hash160(secret);
        bytes_equal(&h, &self.secret_hash)
    }
}

/// Byte-wise equality of two byte strings.
pub fn bytes_equal(a: &Vec<u8>, b: &Vec<u8>) -> (r: bool)
    ensures
        r == (a@ == b@),
{
    if a.len() != b.len() {
        return false;
    }
    let mut i: usize = 0;
    while i < a.len()
        invariant
            a@.len() == b@.len(),
            0 <= i <= a@.len(),
            forall|j: int| 0 <= j < i ==> a@[j] == b@[j],
        decreases a@.len() - i,
    {
        if a[i] != b[i] {
            return false;
        }
        i = i + 1;
    }
    assert(a@ =~= b@);
    true
}

/// The locking script of the escrow with parameters `params`, as bytes.
pub fn script(params: &SlpHtlcParams) -> (r: Vec<u8>)
    requires
        params@.wf(),
    ensures
        r@ == locking_bytes(params@),
{
    let ops = params.script_ops();
    assert(ops_serializable(ops_view(ops@)));
    serialize_ops(&ops)
}

/// Same parameters give the same locking script and the same escrow script.
pub proof fn lemma_script_deterministic(p: HtlcParamsView, q: HtlcParamsView)
    requires
        p == q,
    ensures
        locking_bytes(p) == locking_bytes(q),
        escrow_bytes(p) == escrow_bytes(q),
{
}

/// Who spends the escrow, with what each spending branch needs.
#[derive(Clone)]
pub enum SlpHtlcSignatory {
    /// The seller reveals the secret.
    Redeem { seller_pk: Vec<u8>, secret: Vec<u8> },
    /// The buyer takes the tokens back after the timeout.
    Timeout { buyer_pk: Vec<u8> },
}

pub enum SignatoryView {
    Redeem { seller_pk: Seq<u8>, secret: Seq<u8> },
    Timeout { buyer_pk: Seq<u8> },
}

impl View for SlpHtlcSignatory {
    type V = SignatoryView;

    open spec fn view(&self) -> SignatoryView {
        match self {
            SlpHtlcSignatory::Redeem { seller_pk, secret } => SignatoryView::Redeem {
                seller_pk: seller_pk@,
                secret: secret@,
            },
            SlpHtlcSignatory::Timeout { buyer_pk } => SignatoryView::Timeout { buyer_pk: buyer_pk@ },
        }
    }
}

/// The unlocking script as tokens: the signature with its hash-type byte, the
/// public key, the secret on the redeem branch only, and the branch flag last.
pub open spec fn unlocking_ops(s: SignatoryView, sig: Seq<u8>) -> Seq<OpView> {
    let signed = sig.push(SIG_HASH_DEFAULT);
    match s {
        SignatoryView::Redeem { seller_pk, secret } => seq![
            OpView::Push(signed),
            OpView::Push(seller_pk),
            OpView::Push(secret),
            OpView::Bool(true),
        ],
        SignatoryView::Timeout { buyer_pk } => seq![
            OpView::Push(signed),
            OpView::Push(buyer_pk),
            OpView::Bool(false),
        ],
    }
}

/// The sequence number that the contract input carries on each branch: the
/// timeout branch leaves the lock time enabled.
pub open spec fn contract_sequence(s: SignatoryView) -> u32 {
    match s {
        SignatoryView::Redeem { .. } => SEQUENCE_FINAL,
        SignatoryView::Timeout { .. } => (SEQUENCE_FINAL - 1) as u32,
    }
}

/// The version and lock time of the spending transaction on each branch: the
/// timeout branch commits to the contract's timeout.
pub open spec fn spend_version_lock_time(s: SignatoryView, timeout: u32) -> (i32, u32) {
    match s {
        SignatoryView::Redeem { .. } => (1, 0),
        SignatoryView::Timeout { .. } => (2, timeout),
    }
}

impl SlpHtlcSignatory {
    /// The hash type of the signature.
    pub fn sig_hash_flags(&self) -> (r: u8)
        ensures
            r == SIG_HASH_DEFAULT,
    {
        SIG_HASH_DEFAULT
    }

    /// A signature of the largest size, which stands in for the real one while
    /// the transaction's size is estimated.
    pub fn placeholder_signatures(&self) -> (r: Vec<u8>)
        ensures
            r@ == Seq::new(MAX_SIGNATURE_SIZE as nat, |i: int| 0u8),
    {
        let mut v: Vec<u8> = Vec::new();
        let mut i: usize = 0;
        while i < MAX_SIGNATURE_SIZE
            invariant
                0 <= i <= MAX_SIGNATURE_SIZE,
                v@ == Seq::new(i as nat, |j: int| 0u8),
            decreases MAX_SIGNATURE_SIZE - i,
        {
            v.push(0);
            assert(v@ =~= Seq::new((i + 1) as nat, |j: int| 0u8));
            i = i + 1;
        }
        v
    }

    /// The unlocking script for signature `sig`.
    pub fn build_script(&self, sig: &Vec<u8>) -> (r: Vec<ScriptOp>)
        ensures
            ops_view(r@) == unlocking_ops(self@, sig@),
    {
        let mut signed = sig.clone();
        signed.push(self.sig_hash_flags());
        let mut v: Vec<ScriptOp> = Vec::new();
        match self {
            SlpHtlcSignatory::Redeem { seller_pk, secret } => {
                v.push(ScriptOp::Push(signed));
                v.push(ScriptOp::Push(seller_pk.clone()));
                v.push(ScriptOp::Push(secret.clone()));
                v.push(ScriptOp::Bool(true));
            },
            SlpHtlcSignatory::Timeout { buyer_pk } => {
                v.push(ScriptOp::Push(signed));
                v.push(ScriptOp::Push(buyer_pk.clone()));
                v.push(ScriptOp::Bool(false));
            },
        }
        assert(ops_view(v@) =~= unlocking_ops(self@, sig@));
        v
    }

    /// The sequence number of the contract input.
    pub fn contract_sequence(&self) -> (r: u32)
        ensures
            r == contract_sequence(self@),
    {
        match self {
            SlpHtlcSignatory::Redeem { .. } => SEQUENCE_FINAL,
            SlpHtlcSignatory::Timeout { .. } => SEQUENCE_FINAL - 1,
        }
    }

    /// The version and lock time of the transaction that spends the escrow.
    pub fn version_and_lock_time(&self, timeout: u32) -> (r: (i32, u32))
        ensures
            r == spend_version_lock_time(self@, timeout),
    {
        match self {
            SlpHtlcSignatory::Redeem { .. } => (1, 0),
            SlpHtlcSignatory::Timeout { .. } => (2, timeout),
        }
    }
}

/// The branch flag and the pushed data of an unlocking script agree with its
/// branch: a redeem pushes its secret and sets the flag, a timeout pushes no
/// secret and clears it.
pub proof fn lemma_unlocking_consistent(s: SignatoryView, sig: Seq<u8>)
    ensures
        match s {
            SignatoryView::Redeem { seller_pk, secret } => {
                &&& unlocking_ops(s, sig).len() == 4
                &&& unlocking_ops(s, sig)[1] == OpView::Push(seller_pk)
                &&& unlocking_ops(s, sig)[2] == OpView::Push(secret)
                &&& unlocking_ops(s, sig).last() == OpView::Bool(true)
            },
            SignatoryView::Timeout { buyer_pk } => {
                &&& unlocking_ops(s, sig).len() == 3
                &&& unlocking_ops(s, sig)[1] == OpView::Push(buyer_pk)
                &&& unlocking_ops(s, sig).last() == OpView::Bool(false)
            },
        },
{
}

/// A redeem built with a secret whose HASH160 is the escrow's secret hash
/// supplies exactly that secret, so the hash check of the locking script is met.
pub proof fn lemma_redeem_supplies_matching_secret(
    p: HtlcParamsView,
    seller_pk: Seq<u8>,
    secret: Seq<u8>,
    sig: Seq<u8>,
)
    requires
        hash160_of(secret) == p.secret_hash,
    ensures
        unlocking_ops(SignatoryView::Redeem { seller_pk, secret }, sig)[2] == OpView::Push(secret),
        locking_ops(p)[2] == OpView::Push(hash160_of(secret)),
{
}

/// Two redeems with different secrets build different unlocking data.
pub proof fn lemma_distinct_secrets_distinct_scripts(
    seller_pk: Seq<u8>,
    a: Seq<u8>,
    b: Seq<u8>,
    sig: Seq<u8>,
)
    requires
        a != b,
    ensures
        unlocking_ops(SignatoryView::Redeem { seller_pk, secret: a }, sig) != unlocking_ops(
            SignatoryView::Redeem { seller_pk, secret: b },
            sig,
        ),
{
    assert(unlocking_ops(SignatoryView::Redeem { seller_pk, secret: a }, sig)[2] != unlocking_ops(
        SignatoryView::Redeem { seller_pk, secret: b },
        sig,
    )[2]);
}

} // verus!
