//! The slashing sub-state machine of a vault: a dispute is requested by
//! the configured agent and later finalized — approved for an amount up to
//! the pending slash, or rejected — returning the vault to normal either way.

use vstd::prelude::*;

use crate::config::ProgramConfig;
use crate::errors::{ArithmeticError, AuthorizationError, ConfigError, CoreError, StateError};
use crate::vault::{bps_share, Vault};
use crate::BASE_BPS;
use vstd::arithmetic::mul::lemma_mul_upper_bound;

verus! {

/// The decision a slash request runs through, in order: only the configured
/// agent may request; only one dispute at a time; the requested basis
/// points must not exceed the vault's maximum; and the slash amount they
/// select must be representable. `None` means the request is accepted.
pub open spec fn request_slash_check(
    v: Vault,
    config: ProgramConfig,
    caller: u64,
    slash_bps: u16,
) -> Option<CoreError> {
    if caller != config.agent {
        Some(CoreError::Authorization(AuthorizationError::UnauthorizedCaller))
    } else if v.is_dispute_active {
        Some(CoreError::State(StateError::VaultUnderDispute))
    } else if slash_bps > v.max_slash_bps {
        Some(CoreError::Config(ConfigError::SlashBpsExceedsMax))
    } else if bps_share(v.capital_after_slashing as int, slash_bps as int) > u64::MAX {
        Some(CoreError::Arithmetic(ArithmeticError::Overflow))
    } else {
        None
    }
}

/// The vault after an accepted slash request: the pending amount is the
/// requested basis-point share of the capital still standing after earlier
/// slashes, the claimant and dispute start are recorded, and the dispute
/// flag blocks opens, closes and further requests.
pub open spec fn request_slash_apply(v: Vault, slash_bps: u16, claimant: u64, now: i64) -> Vault {
    Vault {
        pending_slash_amount: bps_share(v.capital_after_slashing as int, slash_bps as int) as u64,
        slash_claimant: claimant,
        dispute_start_time: now,
        is_dispute_active: true,
        ..v
    }
}

/// The decision a finalize runs through, in order: only the configured
/// agent may finalize; there must be an active dispute; an approval may
/// take at most the pending amount, and never more than the capital that
/// is left. `None` means the finalize is accepted.
pub open spec fn finalize_slash_check(
    v: Vault,
    config: ProgramConfig,
    caller: u64,
    decision: bool,
    amount: u64,
) -> Option<CoreError> {
    if caller != config.agent {
        Some(CoreError::Authorization(AuthorizationError::UnauthorizedCaller))
    } else if !v.is_dispute_active {
        Some(CoreError::State(StateError::NoActiveDispute))
    } else if decision && amount > v.pending_slash_amount {
        Some(CoreError::State(StateError::SlashAmountExceedsPending))
    } else if decision && amount > v.capital_after_slashing {
        Some(CoreError::Arithmetic(ArithmeticError::Underflow))
    } else {
        None
    }
}

/// The vault after an accepted finalize: an approval reduces the capital
/// after slashing by the approved amount, a rejection changes no capital;
/// either way the dispute is cleared and nothing is pending any more.
pub open spec fn finalize_slash_apply(v: Vault, decision: bool, amount: u64) -> Vault {
    Vault {
        capital_after_slashing: if decision {
            (v.capital_after_slashing - amount) as u64
        } else {
            v.capital_after_slashing
        },
        pending_slash_amount: 0,
        is_dispute_active: false,
        ..v
    }
}

impl Vault {
    /// Opens a dispute that would slash `slash_bps` basis points of the
    /// vault's effective capital, claimed by `claimant`. Gated on the
    /// configured agent. On any error the vault is untouched.
    pub fn request_slash(
        &mut self,
        config: &ProgramConfig,
        caller: u64,
        slash_bps: u16,
        claimant: u64,
        now: i64,
    ) -> (r: Result<(), CoreError>)
        requires
            old(self).wf(),
        ensures
            final(self).wf(),
            request_slash_check(*old(self), *config, caller, slash_bps) matches Some(e) ==> r
                == Err::<(), CoreError>(e) && *final(self) == *old(self),
            request_slash_check(*old(self), *config, caller, slash_bps) is None ==> r is Ok
                && *final(self) == request_slash_apply(*old(self), slash_bps, claimant, now),
    {
        if caller != config.agent {
            return Err(CoreError::Authorization(AuthorizationError::UnauthorizedCaller));
        }
        if self.is_dispute_active {
            return Err(CoreError::State(StateError::VaultUnderDispute));
        }
        if slash_bps > self.max_slash_bps {
            return Err(CoreError::Config(ConfigError::SlashBpsExceedsMax));
        }
        proof {
            lemma_mul_upper_bound(
                self.capital_after_slashing as int,
                u64::MAX as int,
                slash_bps as int,
                u16::MAX as int,
            );
        }
        let pending_wide: u128 = (self.capital_after_slashing as u128) * (slash_bps as u128) / (
        BASE_BPS as u128);
        if pending_wide > u64::MAX as u128 {
            return Err(CoreError::Arithmetic(ArithmeticError::Overflow));
        }
        self.pending_slash_amount = pending_wide as u64;
        self.slash_claimant = claimant;
        self.dispute_start_time = now;
        self.is_dispute_active = true;
        Ok(())
    }

    /// Finalizes the active dispute. An approval (`decision` true) takes
    /// `amount` — at most the pending slash — out of the capital after
    /// slashing, and the caller owes the recorded claimant a transfer of
    /// the returned amount; a rejection changes no capital and owes
    /// nothing. Gated on the configured agent. On any error the vault is
    /// untouched.
    pub fn finalize_slash(
        &mut self,
        config: &ProgramConfig,
        caller: u64,
        decision: bool,
        amount: u64,
    ) -> (r: Result<u64, CoreError>)
        requires
            old(self).wf(),
        ensures
            final(self).wf(),
            finalize_slash_check(*old(self), *config, caller, decision, amount) matches Some(e)
                ==> r == Err::<u64, CoreError>(e) && *final(self) == *old(self),
            finalize_slash_check(*old(self), *config, caller, decision, amount) is None ==> r
                == Ok::<u64, CoreError>(
                if decision {
                    amount
                } else {
                    0
                },
            ) && *final(self) == finalize_slash_apply(*old(self), decision, amount),
    {
        if caller != config.agent {
            return Err(CoreError::Authorization(AuthorizationError::UnauthorizedCaller));
        }
        if !self.is_dispute_active {
            return Err(CoreError::State(StateError::NoActiveDispute));
        }
        if decision {
            if amount > self.pending_slash_amount {
                return Err(CoreError::State(StateError::SlashAmountExceedsPending));
            }
            if amount > self.capital_after_slashing {
                return Err(CoreError::Arithmetic(ArithmeticError::Underflow));
            }
            self.capital_after_slashing = self.capital_after_slashing - amount;
        }
        self.pending_slash_amount = 0;
        self.is_dispute_active = false;
        if decision {
            Ok(amount)
        } else {
            Ok(0)
        }
    }
}

} // verus!
