//! Reward distribution: deposits into a vault's reward pool and the
//! proportional claims of investors and beneficiaries.
//!
//! All reward arithmetic is two-stage floor division — first the pool share
//! in basis points, then the individual share — computed over wide
//! intermediates so that no multiplication can overflow before the final
//! division. The ordering is deliberate: a single combined fraction could
//! round differently and must not be substituted.

use vstd::prelude::*;

use crate::errors::{ArithmeticError, CoreError, StateError};
use crate::position::Position;
use crate::vault::{bps_share, Beneficiary, Vault};
use crate::vault::{lemma_sum_share_bps_congruent, lemma_sum_share_bps_nonneg};
use crate::BASE_BPS;
use vstd::arithmetic::div_mod::{lemma_div_by_multiple, lemma_div_is_ordered, lemma_div_pos_is_pos};
use vstd::arithmetic::mul::{lemma_mul_inequality, lemma_mul_nonnegative, lemma_mul_upper_bound};

verus! {

/// The slice of all deposited rewards reserved for investors as a whole:
/// `floor(total_rewards_deposited * investor_bps / BASE_BPS)`.
pub open spec fn investor_pool(v: Vault) -> int {
    bps_share(v.total_rewards_deposited as int, v.investor_bps as int)
}

/// One position's slice of the investor pool, proportional to its locked
/// value: `floor(investor_pool * tvl / total_capital_collected)`.
/// Meaningful only while the vault has collected capital.
pub open spec fn investor_share(v: Vault, tvl: int) -> int {
    investor_pool(v) * tvl / (v.total_capital_collected as int)
}

/// What a claimable query for an investor position returns: the position's
/// share of the investor pool minus what it has already claimed. Shares are
/// undefined on an empty vault; a share beyond `u64` is an overflow; claims
/// beyond the share signal a prior inconsistency and are an underflow.
pub open spec fn claimable_investor_result(v: Vault, p: Position) -> Result<u64, CoreError> {
    if v.total_capital_collected == 0 {
        Err(CoreError::State(StateError::NoCapital))
    } else if investor_share(v, p.total_value_locked as int) > u64::MAX {
        Err(CoreError::Arithmetic(ArithmeticError::Overflow))
    } else if p.total_rewards_claimed > investor_share(v, p.total_value_locked as int) {
        Err(CoreError::Arithmetic(ArithmeticError::Underflow))
    } else {
        Ok((investor_share(v, p.total_value_locked as int) - p.total_rewards_claimed) as u64)
    }
}

/// A beneficiary's entitlement out of all deposited rewards:
/// `floor(total_rewards_deposited * share_bps / BASE_BPS)`.
pub open spec fn beneficiary_entitlement(v: Vault, index: int) -> int {
    bps_share(v.total_rewards_deposited as int, v.beneficiaries@[index].share_bps as int)
}

/// What a claimable query for a beneficiary returns: its entitlement minus
/// what it has already claimed.
pub open spec fn claimable_beneficiary_result(v: Vault, index: int) -> Result<u64, CoreError> {
    if index >= v.beneficiaries@.len() {
        Err(CoreError::State(StateError::InvalidBeneficiaryIndex))
    } else if v.beneficiaries@[index].rewards_claimed > beneficiary_entitlement(v, index) {
        Err(CoreError::Arithmetic(ArithmeticError::Underflow))
    } else {
        Ok((beneficiary_entitlement(v, index) - v.beneficiaries@[index].rewards_claimed) as u64)
    }
}

/// A basis-point share of at most [`BASE_BPS`] points never exceeds the
/// amount it is taken from.
pub proof fn lemma_bps_share_le_amount(amount: int, bps: int)
    requires
        0 <= amount,
        0 <= bps <= BASE_BPS,
    ensures
        0 <= bps_share(amount, bps) <= amount,
{
    lemma_mul_nonnegative(amount, bps);
    lemma_div_pos_is_pos(amount * bps, BASE_BPS as int);
    lemma_mul_inequality(bps, BASE_BPS as int, amount);
    vstd::arithmetic::mul::lemma_mul_is_commutative(bps, amount);
    vstd::arithmetic::mul::lemma_mul_is_commutative(BASE_BPS as int, amount);
    lemma_div_is_ordered(amount * bps, amount * (BASE_BPS as int), BASE_BPS as int);
    lemma_div_by_multiple(amount, BASE_BPS as int);
    vstd::arithmetic::mul::lemma_mul_is_commutative(amount, BASE_BPS as int);
}

/// A basis-point share grows at most with the amount it is taken from.
pub proof fn lemma_bps_share_monotone(a: int, b: int, bps: int)
    requires
        0 <= a <= b,
        0 <= bps,
    ensures
        bps_share(a, bps) <= bps_share(b, bps),
{
    lemma_mul_inequality(a, b, bps);
    lemma_div_is_ordered(a * bps, b * bps, BASE_BPS as int);
}

/// Computes how much the holder of `position` could claim right now:
/// the position's share of the investor pool, floor-divided twice, minus
/// what it has already claimed. Mutates nothing; the result is a function
/// of the two records alone, so the query is idempotent.
pub fn claimable_for_investor(vault: &Vault, position: &Position) -> (r: Result<u64, CoreError>)
    requires
        vault.wf(),
    ensures
        r == claimable_investor_result(*vault, *position),
{
    if vault.total_capital_collected == 0 {
        return Err(CoreError::State(StateError::NoCapital));
    }
    proof {
        lemma_mul_upper_bound(
            vault.total_rewards_deposited as int,
            u64::MAX as int,
            vault.investor_bps as int,
            u16::MAX as int,
        );
        lemma_sum_share_bps_nonneg(vault.beneficiaries@);
        lemma_bps_share_le_amount(vault.total_rewards_deposited as int, vault.investor_bps as int);
    }
    let pool: u128 = (vault.total_rewards_deposited as u128) * (vault.investor_bps as u128) / (
    BASE_BPS as u128);
    proof {
        lemma_mul_upper_bound(pool as int, u64::MAX as int, position.total_value_locked as int, u64::MAX as int);
        lemma_mul_nonnegative(pool as int, position.total_value_locked as int);
        lemma_div_pos_is_pos(
            (pool as int) * (position.total_value_locked as int),
            vault.total_capital_collected as int,
        );
    }
    let share_wide: u128 = pool * (position.total_value_locked as u128) / (
    vault.total_capital_collected as u128);
    if share_wide > u64::MAX as u128 {
        return Err(CoreError::Arithmetic(ArithmeticError::Overflow));
    }
    let share: u64 = share_wide as u64;
    if position.total_rewards_claimed > share {
        return Err(CoreError::Arithmetic(ArithmeticError::Underflow));
    }
    Ok(share - position.total_rewards_claimed)
}

/// Claims an investor position's outstanding rewards: computes the
/// claimable amount, requires it to be positive, and adds it to the
/// position's claimed-to-date counter, which therefore never decreases.
/// Returns the amount the caller owes the position holder. On any error
/// the position is untouched.
pub fn claim_investor(vault: &Vault, position: &mut Position) -> (r: Result<u64, CoreError>)
    requires
        vault.wf(),
    ensures
        final(position).total_rewards_claimed >= old(position).total_rewards_claimed,
        r is Err ==> *final(position) == *old(position),
        claimable_investor_result(*vault, *old(position)) matches Err(e) ==> r == Err::<
            u64,
            CoreError,
        >(e),
        claimable_investor_result(*vault, *old(position)) matches Ok(amount) ==> if amount == 0 {
            r == Err::<u64, CoreError>(CoreError::State(StateError::NoRewardsToClaim))
        } else {
            &&& r == Ok::<u64, CoreError>(amount)
            &&& final(position).total_rewards_claimed == old(position).total_rewards_claimed
                + amount
            &&& final(position).total_rewards_claimed == investor_share(
                *vault,
                old(position).total_value_locked as int,
            )
            &&& final(position).total_value_locked == old(position).total_value_locked
            &&& final(position).vault == old(position).vault
            &&& final(position).asset == old(position).asset
        },
{
    let claimable = match claimable_for_investor(vault, position) {
        Ok(c) => c,
        Err(e) => {
            return Err(e);
        },
    };
    if claimable == 0 {
        return Err(CoreError::State(StateError::NoRewardsToClaim));
    }
    position.total_rewards_claimed = position.total_rewards_claimed + claimable;
    Ok(claimable)
}

/// Computes how much beneficiary `index` could claim right now: its
/// basis-point entitlement out of all deposited rewards, minus what it has
/// already claimed. Mutates nothing.
pub fn claimable_for_beneficiary(vault: &Vault, index: usize) -> (r: Result<u64, CoreError>)
    requires
        vault.wf(),
    ensures
        r == claimable_beneficiary_result(*vault, index as int),
{
    if index >= vault.beneficiaries.len() {
        return Err(CoreError::State(StateError::InvalidBeneficiaryIndex));
    }
    proof {
        lemma_mul_upper_bound(
            vault.total_rewards_deposited as int,
            u64::MAX as int,
            vault.beneficiaries@[index as int].share_bps as int,
            u16::MAX as int,
        );
        crate::vault::lemma_sum_share_bps_element_le(vault.beneficiaries@, index as int);
        lemma_sum_share_bps_nonneg(vault.beneficiaries@);
        lemma_bps_share_le_amount(
            vault.total_rewards_deposited as int,
            vault.beneficiaries@[index as int].share_bps as int,
        );
    }
    let entitled_wide: u128 = (vault.total_rewards_deposited as u128) * (
    vault.beneficiaries[index].share_bps as u128) / (BASE_BPS as u128);
    let entitled: u64 = entitled_wide as u64;
    if vault.beneficiaries[index].rewards_claimed > entitled {
        return Err(CoreError::Arithmetic(ArithmeticError::Underflow));
    }
    Ok(entitled - vault.beneficiaries[index].rewards_claimed)
}

impl Vault {
    /// Deposits `amount` into the vault's reward pool. The caller owes the
    /// vault's reward custody a transfer of the same amount. Rejects a zero
    /// amount and a total beyond `u64`; on any error the vault is untouched.
    pub fn deposit_rewards(&mut self, amount: u64) -> (r: Result<(), CoreError>)
        requires
            old(self).wf(),
        ensures
            final(self).wf(),
            r is Err ==> *final(self) == *old(self),
            amount == 0 ==> r == Err::<(), CoreError>(
                CoreError::Arithmetic(ArithmeticError::AmountMustBePositive),
            ),
            amount > 0 && old(self).total_rewards_deposited + amount > u64::MAX ==> r == Err::<
                (),
                CoreError,
            >(CoreError::Arithmetic(ArithmeticError::Overflow)),
            amount > 0 && old(self).total_rewards_deposited + amount <= u64::MAX ==> {
                &&& r is Ok
                &&& final(self).total_rewards_deposited == old(self).total_rewards_deposited
                    + amount
                &&& *final(self) == (Vault {
                    total_rewards_deposited: final(self).total_rewards_deposited,
                    ..*old(self)
                })
            },
    {
        if amount == 0 {
            return Err(CoreError::Arithmetic(ArithmeticError::AmountMustBePositive));
        }
        let new_total: u64 = match self.total_rewards_deposited.checked_add(amount) {
            Some(t) => t,
            None => {
                return Err(CoreError::Arithmetic(ArithmeticError::Overflow));
            },
        };
        proof {
            assert forall|i: int| 0 <= i < self.beneficiaries@.len() implies #[trigger] self
                .beneficiaries@[i].rewards_claimed <= bps_share(
                new_total as int,
                self.beneficiaries@[i].share_bps as int,
            ) by {
                lemma_bps_share_monotone(
                    self.total_rewards_deposited as int,
                    new_total as int,
                    self.beneficiaries@[i].share_bps as int,
                );
            }
        }
        self.total_rewards_deposited = new_total;
        Ok(())
    }

    /// Claims beneficiary `index`'s outstanding rewards: computes the
    /// claimable amount, requires it to be positive, and raises the
    /// beneficiary's claimed-to-date counter to its entitlement. Returns
    /// the amount the caller owes the beneficiary's address. On any error
    /// the vault is untouched.
    pub fn claim_beneficiary(&mut self, index: usize) -> (r: Result<u64, CoreError>)
        requires
            old(self).wf(),
        ensures
            final(self).wf(),
            final(self).beneficiaries@.len() == old(self).beneficiaries@.len(),
            forall|i: int|
                #![trigger final(self).beneficiaries@[i].rewards_claimed]
                0 <= i < old(self).beneficiaries@.len()
                    ==> final(self).beneficiaries@[i].rewards_claimed
                    >= old(self).beneficiaries@[i].rewards_claimed,
            r is Err ==> *final(self) == *old(self),
            claimable_beneficiary_result(*old(self), index as int) matches Err(e) ==> r == Err::<
                u64,
                CoreError,
            >(e),
            claimable_beneficiary_result(*old(self), index as int) matches Ok(amount) ==> if amount
                == 0 {
                r == Err::<u64, CoreError>(CoreError::State(StateError::NoRewardsToClaim))
            } else {
                &&& r == Ok::<u64, CoreError>(amount)
                &&& final(self).beneficiaries@ == old(self).beneficiaries@.update(
                    index as int,
                    (Beneficiary {
                        rewards_claimed: (old(self).beneficiaries@[index as int].rewards_claimed
                            + amount) as u64,
                        ..old(self).beneficiaries@[index as int]
                    }),
                )
                &&& final(self).beneficiaries@[index as int].rewards_claimed
                    == beneficiary_entitlement(*old(self), index as int)
                &&& *final(self) == (Vault {
                    beneficiaries: final(self).beneficiaries,
                    ..*old(self)
                })
            },
    {
        let claimable = match claimable_for_beneficiary(self, index) {
            Ok(c) => c,
            Err(e) => {
                return Err(e);
            },
        };
        if claimable == 0 {
            return Err(CoreError::State(StateError::NoRewardsToClaim));
        }
        proof {
            crate::vault::lemma_sum_share_bps_element_le(self.beneficiaries@, index as int);
            lemma_sum_share_bps_nonneg(self.beneficiaries@);
            lemma_bps_share_le_amount(
                self.total_rewards_deposited as int,
                self.beneficiaries@[index as int].share_bps as int,
            );
        }
        let updated = Beneficiary {
            address: self.beneficiaries[index].address,
            share_bps: self.beneficiaries[index].share_bps,
            rewards_claimed: self.beneficiaries[index].rewards_claimed + claimable,
        };
        let ghost old_list = self.beneficiaries@;
        self.beneficiaries[index] = updated;
        proof {
            lemma_sum_share_bps_congruent(self.beneficiaries@, old_list);
        }
        Ok(claimable)
    }
}

} // verus!
