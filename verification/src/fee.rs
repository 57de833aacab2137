//! The settlement fee: a percentage of the requested native amount, rounded
//! down, and what is left for the initiator.

use vstd::prelude::*;

verus! {

/// The largest fee percentage that leaves a non-negative net amount.
pub const MAX_FEE_PERCENT: u8 = 100;

/// `floor(requested * percent / 100)`.
pub open spec fn fee_of(requested: u64, percent: u8) -> int {
    (requested as int * percent as int) / 100
}

/// What remains of `requested` once the fee is taken.
pub open spec fn net_of(requested: u64, percent: u8) -> int {
    requested as int - fee_of(requested, percent)
}

/// The two parts into which a requested amount is split.
#[derive(Clone, Copy, Debug, PartialEq, Eq)]
pub struct FeeSplit {
    /// The part for the administrator.
    pub fee: u64,
    /// The part for the initiator.
    pub net: u64,
}

/// The fee never exceeds the amount, and fee and net add up to it exactly.
pub proof fn lemma_fee_conserved(requested: u64, percent: u8)
    requires
        percent <= MAX_FEE_PERCENT,
    ensures
        0 <= fee_of(requested, percent) <= requested,
        0 <= net_of(requested, percent) <= requested,
        fee_of(requested, percent) + net_of(requested, percent) == requested,
{
    let r = requested as int;
    let p = percent as int;
    assert(0 <= r * p <= r * 100) by (nonlinear_arith)
        requires
            0 <= r,
            0 <= p <= 100,
    ;
}

/// A fee of nothing leaves the whole amount; a fee of everything leaves
/// nothing.
pub proof fn lemma_fee_extremes(requested: u64)
    ensures
        fee_of(requested, 0) == 0,
        net_of(requested, 0) == requested,
        fee_of(requested, 100) == requested,
        net_of(requested, 100) == 0,
{
    let r = requested as int;
    assert(r * 0 == 0) by (nonlinear_arith);
    assert((r * 100) / 100 == r) by (nonlinear_arith);
}

/// Split `requested` into fee and net. Succeeds exactly where the
/// percentage is at most one hundred.
pub fn split_fee(requested: u64, percent: u8) -> (r: Option<FeeSplit>)
    ensures
        r is Some <==> percent <= MAX_FEE_PERCENT,
        r matches Some(s) ==> s.fee == fee_of(requested, percent) && s.net == net_of(
            requested,
            percent,
        ),
{
    if percent > MAX_FEE_PERCENT {
        return None;
    }
    proof {
        lemma_fee_conserved(requested, percent);
        let r = requested as int;
        let p = percent as int;
        assert(0 <= r * p <= 0xffff_ffff_ffff_ffff * 100) by (nonlinear_arith)
            requires
                0 <= r <= 0xffff_ffff_ffff_ffff,
                0 <= p <= 100,
        ;
    }
    let product: u128 = (requested as u128) * (percent as u128);
    let fee: u64 = (product / 100) as u64;
    Some(FeeSplit { fee, net: requested - fee })
}

} // verus!
