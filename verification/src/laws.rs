//! Laws that relate several operations of the accounting core. Each proof
//! function states one law over the same spec functions the operations'
//! contracts use, so the law holds of every execution that goes through
//! those operations.

use vstd::prelude::*;

use crate::position::{
    close_position_result, open_position_apply, open_position_check, opened_position, Position,
};
use crate::rewards::{claimable_investor_result, investor_pool, investor_share};
use crate::vault::{sum_share_bps, Phase, Vault};
use crate::BASE_BPS;
use crate::errors::CoreError;
use vstd::arithmetic::div_mod::{
    lemma_div_is_ordered, lemma_div_of0, lemma_div_pos_is_pos,
};
use vstd::arithmetic::mul::{lemma_mul_inequality, lemma_mul_nonnegative};

verus! {

/// Share bound and capital bound of every well-formed vault: beneficiary
/// shares and the investor share together never exceed 100%, and the
/// capital left after slashing never exceeds the capital collected. Every
/// constructor establishes `wf` and every mutating operation preserves it,
/// so this holds at every observed instant.
pub proof fn lemma_vault_invariant(v: Vault)
    requires
        v.wf(),
    ensures
        sum_share_bps(v.beneficiaries@) + v.investor_bps <= BASE_BPS,
        v.capital_after_slashing <= v.total_capital_collected,
{
}

/// Idempotence of the claimable query: two claimable computations against
/// the same vault and position — that is, with no claim and no deposit
/// between them — return the same value. The query's contract pins its
/// result to a function of the two records alone and mutates neither.
pub proof fn lemma_claimable_idempotent(
    v: Vault,
    p: Position,
    first: Result<u64, CoreError>,
    second: Result<u64, CoreError>,
)
    requires
        first == claimable_investor_result(v, p),
        second == claimable_investor_result(v, p),
    ensures
        first == second,
{
}

/// Depositing rewards never invalidates a position's claims: if a
/// position's claimed-to-date counter was within its share of the investor
/// pool, it still is after the vault's deposited total grows, because both
/// stages of the share computation are monotone in the deposited total.
pub proof fn lemma_deposit_preserves_position_entitlement(v1: Vault, v2: Vault, p: Position)
    requires
        0 < v1.total_capital_collected,
        v2.total_capital_collected == v1.total_capital_collected,
        v2.investor_bps == v1.investor_bps,
        v1.total_rewards_deposited <= v2.total_rewards_deposited,
        p.total_rewards_claimed <= investor_share(v1, p.total_value_locked as int),
    ensures
        p.total_rewards_claimed <= investor_share(v2, p.total_value_locked as int),
{
    let tvl = p.total_value_locked as int;
    let tcc = v1.total_capital_collected as int;
    crate::rewards::lemma_bps_share_monotone(
        v1.total_rewards_deposited as int,
        v2.total_rewards_deposited as int,
        v1.investor_bps as int,
    );
    lemma_mul_nonnegative(v1.total_rewards_deposited as int, v1.investor_bps as int);
    lemma_div_pos_is_pos(
        (v1.total_rewards_deposited as int) * (v1.investor_bps as int),
        BASE_BPS as int,
    );
    lemma_mul_inequality(investor_pool(v1), investor_pool(v2), tvl);
    lemma_div_is_ordered(investor_pool(v1) * tvl, investor_pool(v2) * tvl, tcc);
}

/// Round trip: opening a position over `amount` and closing it again, with
/// no reward deposited and no slash finalized in between, pays out exactly
/// `amount` — at any instant at which the vault has become unlockable.
pub proof fn lemma_open_close_round_trip(
    v: Vault,
    amount: u64,
    asset: u64,
    now_open: i64,
    now_close: i64,
)
    requires
        v.wf(),
        v.total_rewards_deposited == 0,
        open_position_check(v, amount, now_open) is None,
        open_position_apply(v, amount).phase_at(now_close) == Phase::Unlockable,
    ensures
        close_position_result(
            open_position_apply(v, amount),
            opened_position(v, amount, asset),
            now_close,
        ) == Ok::<u64, CoreError>(amount),
{
    let v2 = open_position_apply(v, amount);
    let p = opened_position(v, amount, asset);
    assert(amount >= v.min_lock_amount > 0);
    assert(v2.total_capital_collected > 0);
    let tcc = v2.total_capital_collected as int;
    assert(investor_pool(v2) == 0 * v2.investor_bps / (BASE_BPS as int));
    lemma_div_of0(BASE_BPS as int);
    lemma_div_of0(tcc);
    assert(investor_share(v2, p.total_value_locked as int) == 0);
    assert(claimable_investor_result(v2, p) == Ok::<u64, CoreError>(0u64));
}

} // verus!
