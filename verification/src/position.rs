//! The position lifecycle: one capital provider's locked-capital claim
//! against a vault, from opening during the funding phase to closing once
//! the vault is unlockable.

use vstd::prelude::*;

use crate::errors::{ArithmeticError, CapacityError, CoreError, PhaseError, StateError};
use crate::rewards::{claimable_for_investor, claimable_investor_result};
use crate::vault::{Phase, Vault};
use vstd::arithmetic::div_mod::{lemma_div_by_multiple, lemma_div_is_ordered, lemma_div_pos_is_pos};
use vstd::arithmetic::mul::{lemma_mul_inequality, lemma_mul_nonnegative, lemma_mul_upper_bound};

verus! {

/// One capital provider's deposit: the vault it belongs to (by the vault's
/// node operator identity), the capital it holds, the rewards it has
/// claimed so far, and the external asset that represents it.
#[derive(Clone, Copy, Debug, PartialEq, Eq, Structural)]
pub struct Position {
    pub vault: u64,
    pub total_value_locked: u64,
    pub total_rewards_claimed: u64,
    pub asset: u64,
}

/// The decision an open runs through, in order: no open under an active
/// dispute; the amount must reach the vault's minimum lock amount and be
/// positive; the new total must be representable and fit under the maximum
/// cap (all-or-nothing: a deposit that does not fit whole is rejected); and
/// the vault must still be funding. `None` means the open is accepted.
pub open spec fn open_position_check(v: Vault, amount: u64, now: i64) -> Option<CoreError> {
    if v.is_dispute_active {
        Some(CoreError::State(StateError::VaultUnderDispute))
    } else if amount < v.min_lock_amount {
        Some(CoreError::Capacity(CapacityError::BelowMinLockAmount))
    } else if amount == 0 {
        Some(CoreError::Arithmetic(ArithmeticError::AmountMustBePositive))
    } else if v.total_capital_collected + amount > u64::MAX {
        Some(CoreError::Arithmetic(ArithmeticError::Overflow))
    } else if v.total_capital_collected + amount > v.max_cap {
        Some(CoreError::Capacity(CapacityError::MaxCapReached))
    } else if now >= v.lock_phase_start_at {
        Some(CoreError::Phase(PhaseError::LockPhaseAlreadyStarted))
    } else {
        None
    }
}

/// The vault after an accepted open: collected capital grows by the
/// deposit, and while funding, capital after slashing tracks it exactly
/// (slashing can only start once locking begins).
pub open spec fn open_position_apply(v: Vault, amount: u64) -> Vault {
    Vault {
        total_capital_collected: (v.total_capital_collected + amount) as u64,
        capital_after_slashing: (v.total_capital_collected + amount) as u64,
        ..v
    }
}

/// The position an accepted open returns: all capital locked, nothing
/// claimed yet.
pub open spec fn opened_position(v: Vault, amount: u64, asset: u64) -> Position {
    Position {
        vault: v.node_operator,
        total_value_locked: amount,
        total_rewards_claimed: 0,
        asset,
    }
}

/// The decision an update runs through: only while the vault is funding; a
/// positive delta re-runs the capacity check; a negative delta may not take
/// the position below zero. `None` means the update is accepted.
pub open spec fn update_position_check(v: Vault, p: Position, delta: i64, now: i64) -> Option<
    CoreError,
> {
    if now >= v.lock_phase_start_at {
        Some(CoreError::Phase(PhaseError::LockPhaseAlreadyStarted))
    } else if delta >= 0 {
        if v.total_capital_collected + delta > u64::MAX {
            Some(CoreError::Arithmetic(ArithmeticError::Overflow))
        } else if v.total_capital_collected + delta > v.max_cap {
            Some(CoreError::Capacity(CapacityError::MaxCapReached))
        } else {
            None
        }
    } else {
        if p.total_value_locked + delta < 0 {
            Some(CoreError::Arithmetic(ArithmeticError::Underflow))
        } else {
            None
        }
    }
}

/// The vault and position after an accepted update: both move by the same
/// delta, and capital after slashing keeps tracking collected capital
/// while funding.
pub open spec fn update_position_apply(v: Vault, p: Position, delta: i64) -> (Vault, Position) {
    (
        Vault {
            total_capital_collected: (v.total_capital_collected + delta) as u64,
            capital_after_slashing: (v.total_capital_collected + delta) as u64,
            ..v
        },
        Position { total_value_locked: (p.total_value_locked + delta) as u64, ..p },
    )
}

/// The capital a close pays out: the position's locked value, scaled down
/// by `capital_after_slashing / total_capital_collected` (floor division)
/// when a finalized slash has reduced the vault's effective capital.
pub open spec fn close_payout(v: Vault, p: Position) -> int {
    if v.capital_after_slashing == v.total_capital_collected {
        p.total_value_locked as int
    } else {
        p.total_value_locked * v.capital_after_slashing / (v.total_capital_collected as int)
    }
}

/// What a close returns, running through its decision in order: no close
/// under an active dispute; the position's claimable rewards are computed
/// and must be exactly zero (fully settled before capital moves); the vault
/// must be unlockable; then the payout.
pub open spec fn close_position_result(v: Vault, p: Position, now: i64) -> Result<u64, CoreError> {
    if v.is_dispute_active {
        Err(CoreError::State(StateError::VaultUnderDispute))
    } else {
        match claimable_investor_result(v, p) {
            Err(e) => Err(e),
            Ok(claimable) => if claimable > 0 {
                Err(CoreError::State(StateError::PositionNotEmpty))
            } else if v.phase_at(now) != Phase::Unlockable {
                Err(CoreError::Phase(PhaseError::InvalidPhase))
            } else {
                Ok(close_payout(v, p) as u64)
            },
        }
    }
}

impl Vault {
    /// Opens a position over `amount` locked capital, represented by
    /// `asset`. On success the caller owes the vault custody a transfer of
    /// `amount` and the provider a freshly minted asset. On any error the
    /// vault is untouched.
    pub fn open_position(&mut self, amount: u64, asset: u64, now: i64) -> (r: Result<
        Position,
        CoreError,
    >)
        requires
            old(self).wf(),
        ensures
            final(self).wf(),
            open_position_check(*old(self), amount, now) matches Some(e) ==> r == Err::<
                Position,
                CoreError,
            >(e) && *final(self) == *old(self),
            open_position_check(*old(self), amount, now) is None ==> r == Ok::<Position, CoreError>(
                opened_position(*old(self), amount, asset),
            ) && *final(self) == open_position_apply(*old(self), amount),
            r matches Ok(p) ==> p.total_value_locked <= final(self).total_capital_collected,
    {
        if self.is_dispute_active {
            return Err(CoreError::State(StateError::VaultUnderDispute));
        }
        if amount < self.min_lock_amount {
            return Err(CoreError::Capacity(CapacityError::BelowMinLockAmount));
        }
        if amount == 0 {
            return Err(CoreError::Arithmetic(ArithmeticError::AmountMustBePositive));
        }
        let new_total: u64 = match self.total_capital_collected.checked_add(amount) {
            Some(t) => t,
            None => {
                return Err(CoreError::Arithmetic(ArithmeticError::Overflow));
            },
        };
        if new_total > self.max_cap {
            return Err(CoreError::Capacity(CapacityError::MaxCapReached));
        }
        if now >= self.lock_phase_start_at {
            return Err(CoreError::Phase(PhaseError::LockPhaseAlreadyStarted));
        }
        self.total_capital_collected = new_total;
        self.capital_after_slashing = new_total;
        Ok(
            Position {
                vault: self.node_operator,
                total_value_locked: amount,
                total_rewards_claimed: 0,
                asset,
            },
        )
    }

    /// Adjusts an open position by a signed `delta` of locked capital,
    /// permitted only while the vault is funding. The vault's collected
    /// capital moves by the same delta; the caller owes (or is owed) a
    /// transfer of the difference. On any error both records are untouched.
    pub fn update_position(&mut self, position: &mut Position, delta: i64, now: i64) -> (r: Result<
        (),
        CoreError,
    >)
        requires
            old(self).wf(),
            old(position).total_value_locked <= old(self).total_capital_collected,
        ensures
            final(self).wf(),
            final(position).total_value_locked <= final(self).total_capital_collected,
            update_position_check(*old(self), *old(position), delta, now) matches Some(e) ==> r
                == Err::<(), CoreError>(e) && *final(self) == *old(self) && *final(position)
                == *old(position),
            update_position_check(*old(self), *old(position), delta, now) is None ==> r is Ok
                && (*final(self), *final(position)) == update_position_apply(
                *old(self),
                *old(position),
                delta,
            ),
    {
        if now >= self.lock_phase_start_at {
            return Err(CoreError::Phase(PhaseError::LockPhaseAlreadyStarted));
        }
        if delta >= 0 {
            let amount: u64 = delta as u64;
            let new_total: u64 = match self.total_capital_collected.checked_add(amount) {
                Some(t) => t,
                None => {
                    return Err(CoreError::Arithmetic(ArithmeticError::Overflow));
                },
            };
            if new_total > self.max_cap {
                return Err(CoreError::Capacity(CapacityError::MaxCapReached));
            }
            position.total_value_locked = position.total_value_locked + amount;
            self.total_capital_collected = new_total;
            self.capital_after_slashing = new_total;
        } else {
            let amount: u64 = if delta == i64::MIN {
                9_223_372_036_854_775_808u64
            } else {
                (-delta) as u64
            };
            if amount > position.total_value_locked {
                return Err(CoreError::Arithmetic(ArithmeticError::Underflow));
            }
            position.total_value_locked = position.total_value_locked - amount;
            self.total_capital_collected = self.total_capital_collected - amount;
            self.capital_after_slashing = self.total_capital_collected;
        }
        Ok(())
    }

    /// Closes a settled position once the vault is unlockable and consumes
    /// it. Returns the payout: the locked value, scaled down proportionally
    /// when a finalized slash left `capital_after_slashing` below
    /// `total_capital_collected`. The caller owes the provider a transfer
    /// of the payout and must burn the position's asset.
    pub fn close_position(&self, position: Position, now: i64) -> (r: Result<u64, CoreError>)
        requires
            self.wf(),
        ensures
            r == close_position_result(*self, position, now),
            r matches Ok(payout) ==> payout <= position.total_value_locked,
    {
        if self.is_dispute_active {
            return Err(CoreError::State(StateError::VaultUnderDispute));
        }
        let claimable = match claimable_for_investor(self, &position) {
            Ok(c) => c,
            Err(e) => {
                return Err(e);
            },
        };
        if claimable > 0 {
            return Err(CoreError::State(StateError::PositionNotEmpty));
        }
        match self.phase(now) {
            Phase::Unlockable => (),
            _ => {
                return Err(CoreError::Phase(PhaseError::InvalidPhase));
            },
        }
        if self.capital_after_slashing == self.total_capital_collected {
            Ok(position.total_value_locked)
        } else {
            proof {
                let tvl = position.total_value_locked as int;
                let cas = self.capital_after_slashing as int;
                let tcc = self.total_capital_collected as int;
                lemma_mul_upper_bound(tvl, u64::MAX as int, cas, u64::MAX as int);
                lemma_mul_nonnegative(tvl, cas);
                lemma_div_pos_is_pos(tvl * cas, tcc);
                lemma_mul_inequality(cas, tcc, tvl);
                vstd::arithmetic::mul::lemma_mul_is_commutative(cas, tvl);
                vstd::arithmetic::mul::lemma_mul_is_commutative(tcc, tvl);
                lemma_div_is_ordered(tvl * cas, tvl * tcc, tcc);
                lemma_div_by_multiple(tvl, tcc);
                vstd::arithmetic::mul::lemma_mul_is_commutative(tvl, tcc);
            }
            let payout_wide: u128 = (position.total_value_locked as u128) * (
            self.capital_after_slashing as u128) / (self.total_capital_collected as u128);
            Ok(payout_wide as u64)
        }
    }
}

} // verus!
