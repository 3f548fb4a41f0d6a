use vstd::prelude::*;

use crate::error::HtlcError;

verus! {

/// A spendable output of the wallet.
pub struct Utxo {
    /// The address that the output pays to.
    pub address: String,
    /// Its value in the smallest unit.
    pub value: u64,
    /// The id of the transaction that holds it, in reference byte order.
    pub tx_hash: Vec<u8>,
    /// Its index in that transaction.
    pub vout: u32,
}

/// Fee rate in the smallest unit per byte.
pub const FEE_RATE: u64 = 1;

/// Sum of a sequence of amounts.
pub open spec fn amount_sum(s: Seq<u64>) -> nat
    decreases s.len(),
{
    if s.len() == 0 {
        0
    } else {
        amount_sum(s.drop_last()) + s.last() as nat
    }
}

proof fn lemma_amount_sum_bound(s: Seq<u64>)
    ensures
        amount_sum(s) <= s.len() * (u64::MAX as nat),
    decreases s.len(),
{
    if s.len() > 0 {
        lemma_amount_sum_bound(s.drop_last());
        assert((s.len() - 1) * (u64::MAX as nat) + u64::MAX as nat == s.len() * (u64::MAX as nat))
            by (nonlinear_arith);
    }
}

/// The decisions of the fee-input selection. The pool of the wallet's spendable
/// outputs is walked in order, one per step; after each the caller learns
/// whether the inputs now cover the outputs of fixed value and, once it has
/// built the transaction, whether the rest pays its fee.
pub struct GasPlanner {
    /// Number of spendable outputs in the pool.
    pub pool_len: usize,
    /// Number of them taken as inputs so far; the next one is at this index.
    pub taken: usize,
    /// Value of the inputs that the transaction had before any was taken.
    pub base_input_sum: u64,
    /// Value of all inputs so far.
    pub input_sum: u128,
    /// Value of the outputs whose value is fixed.
    pub fixed_output_sum: u64,
    /// Fee per byte.
    pub fee_rate: u64,
    /// The values of the inputs taken, in order.
    pub taken_values: Ghost<Seq<u64>>,
}

impl GasPlanner {
    pub open spec fn wf(&self) -> bool {
        &&& self.taken <= self.pool_len
        &&& self.taken_values@.len() == self.taken
        &&& self.input_sum == self.base_input_sum + amount_sum(self.taken_values@)
    }

    /// Whether inputs of total `input_sum` pay the fixed outputs and the fee of
    /// a transaction of `size` bytes.
    pub open spec fn covers(&self, size: nat) -> bool {
        self.input_sum >= self.fixed_output_sum + size * self.fee_rate
    }

    /// A planner over a pool of `pool_len` outputs, for a transaction whose
    /// inputs so far are worth `base_input_sum` and whose fixed outputs are
    /// worth `fixed_output_sum`.
    pub fn new(pool_len: usize, base_input_sum: u64, fixed_output_sum: u64, fee_rate: u64) -> (r:
        GasPlanner)
        ensures
            r.wf(),
            r.pool_len == pool_len,
            r.taken == 0,
            r.base_input_sum == base_input_sum,
            r.fixed_output_sum == fixed_output_sum,
            r.fee_rate == fee_rate,
    {
        GasPlanner {
            pool_len,
            taken: 0,
            base_input_sum,
            input_sum: base_input_sum as u128,
            fixed_output_sum,
            fee_rate,
            taken_values: Ghost(Seq::empty()),
        }
    }

    /// The index of the next output to take, or `InsufficientFunds` once the
    /// pool is used up.
    pub fn next_input(&self) -> (r: Result<usize, HtlcError>)
        requires
            self.wf(),
        ensures
            r is Ok <==> self.taken < self.pool_len,
            r is Ok ==> r->Ok_0 == self.taken,
            r is Err ==> r->Err_0 == HtlcError::InsufficientFunds,
    {
        if self.taken == self.pool_len {
            Err(HtlcError::InsufficientFunds)
        } else {
            Ok(self.taken)
        }
    }

    /// Records that the next output, worth `value`, became an input. Gives the
    /// value left over the fixed outputs once the inputs cover them, else none.
    pub fn add_input(&mut self, value: u64) -> (r: Option<u128>)
        requires
            old(self).wf(),
            old(self).taken < old(self).pool_len,
        ensures
            final(self).wf(),
            final(self).taken == old(self).taken + 1,
            final(self).pool_len == old(self).pool_len,
            final(self).base_input_sum == old(self).base_input_sum,
            final(self).fixed_output_sum == old(self).fixed_output_sum,
            final(self).fee_rate == old(self).fee_rate,
            final(self).taken_values@ == old(self).taken_values@.push(value),
            r is Some <==> final(self).input_sum >= final(self).fixed_output_sum,
            r is Some ==> r->Some_0 == final(self).input_sum - final(self).fixed_output_sum,
    {
        proof {
            let s = self.taken_values@.push(value);
            assert(s.drop_last() =~= self.taken_values@);
            lemma_amount_sum_bound(s);
            assert(s.len() <= usize::MAX);
            assert(s.len() * (u64::MAX as nat) <= (usize::MAX as nat) * (u64::MAX as nat))
                by (nonlinear_arith)
                requires
                    s.len() <= usize::MAX,
            ;
        }
        self.taken = self.taken + 1;
        self.input_sum = self.input_sum + value as u128;
        self.taken_values = Ghost(self.taken_values@.push(value));
        if self.input_sum >= self.fixed_output_sum as u128 {
            Some(self.input_sum - self.fixed_output_sum as u128)
        } else {
            None
        }
    }

    /// Whether the value `leftover` over the fixed outputs pays the fee of a
    /// transaction of `estimated_size` bytes.
    pub fn fee_covered(&self, estimated_size: usize, leftover: u128) -> (r: bool)
        requires
            self.wf(),
            self.input_sum >= self.fixed_output_sum,
            leftover == self.input_sum - self.fixed_output_sum,
        ensures
            r == self.covers(estimated_size as nat),
    {
        proof {
            assert((estimated_size as nat) * (self.fee_rate as nat) <= (usize::MAX as nat) * (
            u64::MAX as nat)) by (nonlinear_arith)
                requires
                    estimated_size <= usize::MAX,
                    self.fee_rate <= u64::MAX,
            ;
        }
        (estimated_size as u128) * (self.fee_rate as u128) <= leftover
    }
}

/// When the planner accepts a transaction size, the inputs, worth exactly the
/// values it took plus those the transaction started with, pay the fixed
/// outputs and the fee on that size; and it took no more outputs than the pool
/// holds.
pub proof fn lemma_planner_accepts_only_funded(p: GasPlanner, estimated_size: nat)
    requires
        p.wf(),
        p.covers(estimated_size),
    ensures
        p.base_input_sum + amount_sum(p.taken_values@) >= p.fixed_output_sum + estimated_size
            * p.fee_rate,
        p.taken_values@.len() <= p.pool_len,
{
}

} // verus!
