//! The vault aggregate: one capped capital raise per node operator, with
//! its reward totals, beneficiary list and slashing state.

use vstd::prelude::*;

use crate::errors::{ArithmeticError, ConfigError, CoreError};
use crate::{BASE_BPS, MIN_FUND_RAISE_DURATION, MIN_LOCK_PERIOD};

verus! {

/// A fixed-share claimant on deposited rewards, distinct from investors.
/// `share_bps` of every reward deposit (out of [`BASE_BPS`]) is reserved for
/// this address; `rewards_claimed` is what it has already taken.
#[derive(Clone, Copy, Debug, PartialEq, Eq, Structural)]
pub struct Beneficiary {
    pub address: u64,
    pub share_bps: u16,
    pub rewards_claimed: u64,
}

/// Parameters a vault is created from.
#[derive(Clone, Debug)]
pub struct InitVaultConfig {
    pub min_cap: u64,
    pub max_cap: u64,
    pub min_lock_amount: u64,
    pub beneficiaries: Vec<Beneficiary>,
    pub investor_bps: u16,
    pub max_slash_bps: u16,
    pub slash_claimant: u64,
    pub reward_distributor: u64,
    pub node_operator: u64,
    pub lock_phase_duration: i64,
    pub lock_phase_start_time: i64,
}

/// The derived phase of a vault at an instant. It is recomputed from the
/// clock on every call and never stored, so state and wall-clock truth
/// cannot drift apart.
#[derive(Clone, Copy, Debug, PartialEq, Eq, Structural)]
pub enum Phase {
    /// Before the lock start: positions may open and change.
    Funding,
    /// The lock window: capital is committed.
    Locked,
    /// After the lock window, or once the lock clock has started while the
    /// raise fell short of its minimum cap: capital may be withdrawn.
    Unlockable,
}

/// One node operator's capital raise: token mints, capital bounds, running
/// totals, beneficiary shares, and the slashing sub-state.
#[derive(Clone, Debug)]
pub struct Vault {
    pub locking_token_mint: u64,
    pub reward_token_mint: u64,
    pub min_cap: u64,
    pub max_cap: u64,
    pub min_lock_amount: u64,
    pub total_capital_collected: u64,
    pub total_rewards_deposited: u64,
    pub capital_after_slashing: u64,
    pub beneficiaries: Vec<Beneficiary>,
    pub investor_bps: u16,
    pub max_slash_bps: u16,
    pub pending_slash_amount: u64,
    pub slash_claimant: u64,
    pub nft_collection: u64,
    pub reward_distributor: u64,
    pub node_operator: u64,
    pub lock_phase_start_at: i64,
    pub lock_phase_duration: i64,
    pub is_dispute_active: bool,
    pub dispute_start_time: i64,
}

/// The share of `amount` that `bps` basis points select, rounded down.
pub open spec fn bps_share(amount: int, bps: int) -> int {
    amount * bps / (BASE_BPS as int)
}

/// The beneficiary shares of a list, in basis points, summed.
pub open spec fn sum_share_bps(s: Seq<Beneficiary>) -> int
    decreases s.len(),
{
    if s.len() == 0 {
        0
    } else {
        sum_share_bps(s.drop_last()) + s.last().share_bps
    }
}

/// No two beneficiaries share an address.
pub open spec fn distinct_addresses(s: Seq<Beneficiary>) -> bool {
    forall|i: int, j: int|
        #![trigger s[i].address, s[j].address]
        0 <= i < j < s.len() ==> s[i].address != s[j].address
}

/// Every beneficiary holds a positive share.
pub open spec fn positive_shares(s: Seq<Beneficiary>) -> bool {
    forall|i: int| #![trigger s[i].share_bps] 0 <= i < s.len() ==> s[i].share_bps > 0
}

/// No beneficiary has claimed more than its share of `total_rewards`.
pub open spec fn claims_within_entitlement(s: Seq<Beneficiary>, total_rewards: int) -> bool {
    forall|i: int|
        #![trigger s[i].rewards_claimed]
        0 <= i < s.len() ==> s[i].rewards_claimed <= bps_share(total_rewards, s[i].share_bps as int)
}

/// What a well-formed creation parameter set looks like at instant `now`.
/// `Vault::create` succeeds on exactly these inputs.
pub open spec fn valid_vault_config(c: InitVaultConfig, now: i64) -> bool {
    &&& distinct_addresses(c.beneficiaries@)
    &&& positive_shares(c.beneficiaries@)
    &&& sum_share_bps(c.beneficiaries@) + c.investor_bps <= BASE_BPS
    &&& c.lock_phase_duration >= MIN_LOCK_PERIOD
    &&& c.max_cap > c.min_cap
    &&& c.min_cap > 0
    &&& c.min_lock_amount > 0
    &&& now + MIN_FUND_RAISE_DURATION <= i64::MAX
    &&& c.lock_phase_start_time >= now + MIN_FUND_RAISE_DURATION
    &&& c.lock_phase_start_time + c.lock_phase_duration <= i64::MAX
}

/// Consistency of a rejection with the parameter set it rejected: each
/// configuration error may only be reported when its condition is violated.
pub open spec fn config_rejection_consistent(c: InitVaultConfig, now: i64, e: CoreError) -> bool {
    match e {
        CoreError::Config(ConfigError::DuplicateBeneficiary) => !distinct_addresses(
            c.beneficiaries@,
        ),
        CoreError::Config(ConfigError::BeneficiaryShareMustBePositive) => !positive_shares(
            c.beneficiaries@,
        ),
        CoreError::Config(ConfigError::BpsExceedsMaximum) => sum_share_bps(c.beneficiaries@)
            + c.investor_bps > BASE_BPS,
        CoreError::Config(ConfigError::LockPhaseTooShort) => c.lock_phase_duration
            < MIN_LOCK_PERIOD,
        CoreError::Config(ConfigError::InvalidCapitalRange) => c.max_cap <= c.min_cap,
        CoreError::Config(ConfigError::MinCapMustBePositive) => c.min_cap == 0,
        CoreError::Config(ConfigError::MinLockAmountMustBePositive) => c.min_lock_amount == 0,
        CoreError::Config(ConfigError::LockPhaseStartsTooSoon) => c.lock_phase_start_time < now
            + MIN_FUND_RAISE_DURATION,
        CoreError::Arithmetic(ArithmeticError::Overflow) => sum_share_bps(c.beneficiaries@)
            + c.investor_bps > u16::MAX || now + MIN_FUND_RAISE_DURATION > i64::MAX
            || c.lock_phase_start_time + c.lock_phase_duration > i64::MAX,
        _ => false,
    }
}

/// Beneficiary share sums are never negative.
pub proof fn lemma_sum_share_bps_nonneg(s: Seq<Beneficiary>)
    ensures
        sum_share_bps(s) >= 0,
    decreases s.len(),
{
    if s.len() > 0 {
        lemma_sum_share_bps_nonneg(s.drop_last());
    }
}

/// Extending a prefix by one element adds that element's share to its sum.
pub proof fn lemma_sum_share_bps_take_step(s: Seq<Beneficiary>, i: int)
    requires
        0 <= i < s.len(),
    ensures
        sum_share_bps(s.take(i + 1)) == sum_share_bps(s.take(i)) + s[i].share_bps,
{
    assert(s.take(i + 1).drop_last() =~= s.take(i));
    assert(s.take(i + 1).last() == s[i]);
}

/// A prefix sum never exceeds the sum of the whole list.
pub proof fn lemma_sum_share_bps_prefix_le(s: Seq<Beneficiary>, i: int)
    requires
        0 <= i <= s.len(),
    ensures
        sum_share_bps(s.take(i)) <= sum_share_bps(s),
    decreases s.len() - i,
{
    if i == s.len() {
        assert(s.take(i) =~= s);
    } else {
        lemma_sum_share_bps_take_step(s, i);
        lemma_sum_share_bps_prefix_le(s, i + 1);
    }
}

/// Every single share is bounded by the sum of all shares.
pub proof fn lemma_sum_share_bps_element_le(s: Seq<Beneficiary>, i: int)
    requires
        0 <= i < s.len(),
    ensures
        s[i].share_bps <= sum_share_bps(s),
    decreases s.len(),
{
    if i == s.len() - 1 {
        lemma_sum_share_bps_nonneg(s.drop_last());
    } else {
        lemma_sum_share_bps_element_le(s.drop_last(), i);
    }
}

/// Lists with pointwise equal shares have equal share sums.
pub proof fn lemma_sum_share_bps_congruent(s1: Seq<Beneficiary>, s2: Seq<Beneficiary>)
    requires
        s1.len() == s2.len(),
        forall|i: int|
            #![trigger s1[i].share_bps, s2[i].share_bps]
            0 <= i < s1.len() ==> s1[i].share_bps == s2[i].share_bps,
    ensures
        sum_share_bps(s1) == sum_share_bps(s2),
    decreases s1.len(),
{
    if s1.len() > 0 {
        assert(s1.last().share_bps == s2.last().share_bps);
        lemma_sum_share_bps_congruent(s1.drop_last(), s2.drop_last());
    }
}

impl Vault {
    /// The vault's internal invariant. Every constructor establishes it and
    /// every mutating operation preserves it: beneficiary and investor
    /// shares fit in 100%, capital after slashing never exceeds collected
    /// capital, collected capital stays within the maximum cap, the capital
    /// bounds are ordered, the lock window does not leave the representable
    /// time range, no slash is pending outside a dispute, and no beneficiary
    /// has claimed beyond its entitlement.
    pub open spec fn wf(self) -> bool {
        &&& sum_share_bps(self.beneficiaries@) + self.investor_bps <= BASE_BPS
        &&& distinct_addresses(self.beneficiaries@)
        &&& positive_shares(self.beneficiaries@)
        &&& claims_within_entitlement(self.beneficiaries@, self.total_rewards_deposited as int)
        &&& 0 < self.min_cap < self.max_cap
        &&& self.min_lock_amount > 0
        &&& self.capital_after_slashing <= self.total_capital_collected
        &&& self.total_capital_collected <= self.max_cap
        &&& MIN_LOCK_PERIOD <= self.lock_phase_duration
        &&& self.lock_phase_start_at + self.lock_phase_duration <= i64::MAX
        &&& (!self.is_dispute_active ==> self.pending_slash_amount == 0)
    }

    /// The phase at instant `now`, derived from timestamps and totals alone:
    /// funding before the lock start; unlockable once the lock window has
    /// passed, or as soon as the lock clock has started while the raise
    /// stayed below its minimum cap; locked in between.
    pub open spec fn phase_at(self, now: i64) -> Phase {
        if now < self.lock_phase_start_at {
            Phase::Funding
        } else if now >= self.lock_phase_start_at + self.lock_phase_duration || (now
            > self.lock_phase_start_at && self.total_capital_collected < self.min_cap) {
            Phase::Unlockable
        } else {
            Phase::Locked
        }
    }

    /// Computes the current phase; a pure function of the clock reading and
    /// the vault's timestamps and totals.
    pub fn phase(&self, now: i64) -> (p: Phase)
        requires
            self.wf(),
        ensures
            p == self.phase_at(now),
    {
        if now < self.lock_phase_start_at {
            Phase::Funding
        } else {
            let lock_end: i64 = self.lock_phase_start_at + self.lock_phase_duration;
            if now >= lock_end || (now > self.lock_phase_start_at && self.total_capital_collected
                < self.min_cap) {
                Phase::Unlockable
            } else {
                Phase::Locked
            }
        }
    }

    /// Decides the vault invariant at run time, for callers outside the
    /// verified core that must establish `wf` before calling a mutating
    /// operation. Vaults built by [`Vault::create`] and mutated only
    /// through the core's operations are always well-formed.
    pub fn is_well_formed(&self) -> (b: bool)
        ensures
            b == self.wf(),
    {
        if !(self.min_cap > 0 && self.max_cap > self.min_cap && self.min_lock_amount > 0
            && self.capital_after_slashing <= self.total_capital_collected
            && self.total_capital_collected <= self.max_cap && self.lock_phase_duration
            >= MIN_LOCK_PERIOD && (self.is_dispute_active || self.pending_slash_amount == 0)) {
            return false;
        }
        if self.lock_phase_start_at.checked_add(self.lock_phase_duration).is_none() {
            return false;
        }
        let n: usize = self.beneficiaries.len();
        let mut total_beneficiary_bps: u16 = 0;
        let mut i: usize = 0;
        while i < n
            invariant
                n == self.beneficiaries@.len(),
                0 <= i <= n,
                forall|a: int, b: int|
                    #![trigger self.beneficiaries@[a].address, self.beneficiaries@[b].address]
                    0 <= a < b < n && a < i ==> self.beneficiaries@[a].address
                        != self.beneficiaries@[b].address,
                forall|k: int|
                    #![trigger self.beneficiaries@[k].share_bps]
                    0 <= k < i ==> self.beneficiaries@[k].share_bps > 0,
                forall|k: int|
                    #![trigger self.beneficiaries@[k].rewards_claimed]
                    0 <= k < i ==> self.beneficiaries@[k].rewards_claimed <= bps_share(
                        self.total_rewards_deposited as int,
                        self.beneficiaries@[k].share_bps as int,
                    ),
                total_beneficiary_bps as int == sum_share_bps(self.beneficiaries@.take(i as int)),
            decreases n - i,
        {
            let mut j: usize = i + 1;
            while j < n
                invariant
                    n == self.beneficiaries@.len(),
                    0 <= i < n,
                    i < j <= n,
                    forall|b: int|
                        #![trigger self.beneficiaries@[b].address]
                        i < b < j ==> self.beneficiaries@[i as int].address
                            != self.beneficiaries@[b].address,
                decreases n - j,
            {
                if self.beneficiaries[i].address == self.beneficiaries[j].address {
                    return false;
                }
                j = j + 1;
            }
            if self.beneficiaries[i].share_bps == 0 {
                return false;
            }
            proof {
                vstd::arithmetic::mul::lemma_mul_upper_bound(
                    self.total_rewards_deposited as int,
                    u64::MAX as int,
                    self.beneficiaries@[i as int].share_bps as int,
                    u16::MAX as int,
                );
            }
            let entitled_wide: u128 = (self.total_rewards_deposited as u128) * (
            self.beneficiaries[i].share_bps as u128) / (BASE_BPS as u128);
            if (self.beneficiaries[i].rewards_claimed as u128) > entitled_wide {
                return false;
            }
            match total_beneficiary_bps.checked_add(self.beneficiaries[i].share_bps) {
                Some(t) => {
                    proof {
                        lemma_sum_share_bps_take_step(self.beneficiaries@, i as int);
                    }
                    total_beneficiary_bps = t;
                },
                None => {
                    proof {
                        lemma_sum_share_bps_take_step(self.beneficiaries@, i as int);
                        lemma_sum_share_bps_prefix_le(self.beneficiaries@, i as int + 1);
                    }
                    return false;
                },
            }
            i = i + 1;
        }
        proof {
            assert(self.beneficiaries@.take(n as int) =~= self.beneficiaries@);
        }
        match total_beneficiary_bps.checked_add(self.investor_bps) {
            Some(total_bps) => total_bps <= BASE_BPS,
            None => false,
        }
    }

    /// Validates a creation parameter set at instant `now`: beneficiary
    /// addresses unique, every share positive, shares plus the investor
    /// share at most 100%, the lock phase long enough and starting late
    /// enough, and the capital bounds ordered and positive. Accepts exactly
    /// the parameter sets in [`valid_vault_config`].
    pub fn validate_config(config: &InitVaultConfig, now: i64) -> (r: Result<(), CoreError>)
        ensures
            r is Ok <==> valid_vault_config(*config, now),
            r matches Err(e) ==> config_rejection_consistent(*config, now, e),
    {
        let n: usize = config.beneficiaries.len();
        let mut total_beneficiary_bps: u16 = 0;
        let mut i: usize = 0;
        while i < n
            invariant
                n == config.beneficiaries@.len(),
                0 <= i <= n,
                forall|a: int, b: int|
                    #![trigger config.beneficiaries@[a].address, config.beneficiaries@[b].address]
                    0 <= a < b < n && a < i ==> config.beneficiaries@[a].address
                        != config.beneficiaries@[b].address,
                forall|k: int|
                    #![trigger config.beneficiaries@[k].share_bps]
                    0 <= k < i ==> config.beneficiaries@[k].share_bps > 0,
                total_beneficiary_bps as int == sum_share_bps(config.beneficiaries@.take(i as int)),
            decreases n - i,
        {
            let mut j: usize = i + 1;
            while j < n
                invariant
                    n == config.beneficiaries@.len(),
                    0 <= i < n,
                    i < j <= n,
                    forall|b: int|
                        #![trigger config.beneficiaries@[b].address]
                        i < b < j ==> config.beneficiaries@[i as int].address
                            != config.beneficiaries@[b].address,
                decreases n - j,
            {
                if config.beneficiaries[i].address == config.beneficiaries[j].address {
                    return Err(CoreError::Config(ConfigError::DuplicateBeneficiary));
                }
                j = j + 1;
            }
            if config.beneficiaries[i].share_bps == 0 {
                return Err(CoreError::Config(ConfigError::BeneficiaryShareMustBePositive));
            }
            match total_beneficiary_bps.checked_add(config.beneficiaries[i].share_bps) {
                Some(t) => {
                    proof {
                        lemma_sum_share_bps_take_step(config.beneficiaries@, i as int);
                    }
                    total_beneficiary_bps = t;
                },
                None => {
                    proof {
                        lemma_sum_share_bps_take_step(config.beneficiaries@, i as int);
                        lemma_sum_share_bps_prefix_le(config.beneficiaries@, i as int + 1);
                    }
                    return Err(CoreError::Arithmetic(ArithmeticError::Overflow));
                },
            }
            i = i + 1;
        }
        proof {
            assert(config.beneficiaries@.take(n as int) =~= config.beneficiaries@);
        }
        let total_bps: u16 = match total_beneficiary_bps.checked_add(config.investor_bps) {
            Some(t) => t,
            None => {
                return Err(CoreError::Arithmetic(ArithmeticError::Overflow));
            },
        };
        if total_bps > BASE_BPS {
            return Err(CoreError::Config(ConfigError::BpsExceedsMaximum));
        }
        if config.lock_phase_duration < MIN_LOCK_PERIOD {
            return Err(CoreError::Config(ConfigError::LockPhaseTooShort));
        }
        if config.max_cap <= config.min_cap {
            return Err(CoreError::Config(ConfigError::InvalidCapitalRange));
        }
        if config.min_cap == 0 {
            return Err(CoreError::Config(ConfigError::MinCapMustBePositive));
        }
        if config.min_lock_amount == 0 {
            return Err(CoreError::Config(ConfigError::MinLockAmountMustBePositive));
        }
        let earliest_lock_time: i64 = match now.checked_add(MIN_FUND_RAISE_DURATION) {
            Some(t) => t,
            None => {
                return Err(CoreError::Arithmetic(ArithmeticError::Overflow));
            },
        };
        if config.lock_phase_start_time < earliest_lock_time {
            return Err(CoreError::Config(ConfigError::LockPhaseStartsTooSoon));
        }
        if config.lock_phase_start_time.checked_add(config.lock_phase_duration).is_none() {
            return Err(CoreError::Arithmetic(ArithmeticError::Overflow));
        }
        Ok(())
    }

    /// Creates a vault from a validated parameter set: all running totals
    /// start at zero, no dispute is active, and every beneficiary starts
    /// with nothing claimed. Succeeds on exactly the parameter sets in
    /// [`valid_vault_config`] and establishes the vault invariant.
    pub fn create(
        config: &InitVaultConfig,
        lock_mint: u64,
        reward_mint: u64,
        nft_collection: u64,
        now: i64,
    ) -> (r: Result<Vault, CoreError>)
        ensures
            r is Ok <==> valid_vault_config(*config, now),
            r matches Err(e) ==> config_rejection_consistent(*config, now, e),
            r matches Ok(v) ==> {
                &&& v.wf()
                &&& v.locking_token_mint == lock_mint
                &&& v.reward_token_mint == reward_mint
                &&& v.nft_collection == nft_collection
                &&& v.min_cap == config.min_cap
                &&& v.max_cap == config.max_cap
                &&& v.min_lock_amount == config.min_lock_amount
                &&& v.total_capital_collected == 0
                &&& v.total_rewards_deposited == 0
                &&& v.capital_after_slashing == 0
                &&& v.investor_bps == config.investor_bps
                &&& v.max_slash_bps == config.max_slash_bps
                &&& v.pending_slash_amount == 0
                &&& v.slash_claimant == config.slash_claimant
                &&& v.reward_distributor == config.reward_distributor
                &&& v.node_operator == config.node_operator
                &&& v.lock_phase_start_at == config.lock_phase_start_time
                &&& v.lock_phase_duration == config.lock_phase_duration
                &&& !v.is_dispute_active
                &&& v.dispute_start_time == 0
                &&& v.beneficiaries@.len() == config.beneficiaries@.len()
                &&& forall|i: int|
                    #![trigger v.beneficiaries@[i]]
                    0 <= i < v.beneficiaries@.len() ==> v.beneficiaries@[i].address
                        == config.beneficiaries@[i].address && v.beneficiaries@[i].share_bps
                        == config.beneficiaries@[i].share_bps && v.beneficiaries@[i].rewards_claimed
                        == 0
            },
    {
        match Self::validate_config(config, now) {
            Ok(()) => (),
            Err(e) => {
                return Err(e);
            },
        }
        let n: usize = config.beneficiaries.len();
        let mut beneficiaries: Vec<Beneficiary> = Vec::new();
        let mut i: usize = 0;
        while i < n
            invariant
                n == config.beneficiaries@.len(),
                0 <= i <= n,
                beneficiaries@.len() == i,
                forall|k: int|
                    #![trigger beneficiaries@[k]]
                    0 <= k < i ==> beneficiaries@[k].address == config.beneficiaries@[k].address
                        && beneficiaries@[k].share_bps == config.beneficiaries@[k].share_bps
                        && beneficiaries@[k].rewards_claimed == 0,
            decreases n - i,
        {
            let b = Beneficiary {
                address: config.beneficiaries[i].address,
                share_bps: config.beneficiaries[i].share_bps,
                rewards_claimed: 0,
            };
            beneficiaries.push(b);
            i = i + 1;
        }
        proof {
            lemma_sum_share_bps_congruent(beneficiaries@, config.beneficiaries@);
        }
        Ok(
            Vault {
                locking_token_mint: lock_mint,
                reward_token_mint: reward_mint,
                min_cap: config.min_cap,
                max_cap: config.max_cap,
                min_lock_amount: config.min_lock_amount,
                total_capital_collected: 0,
                total_rewards_deposited: 0,
                capital_after_slashing: 0,
                beneficiaries,
                investor_bps: config.investor_bps,
                max_slash_bps: config.max_slash_bps,
                pending_slash_amount: 0,
                slash_claimant: config.slash_claimant,
                nft_collection,
                reward_distributor: config.reward_distributor,
                node_operator: config.node_operator,
                lock_phase_start_at: config.lock_phase_start_time,
                lock_phase_duration: config.lock_phase_duration,
                is_dispute_active: false,
                dispute_start_time: 0,
            },
        )
    }
}

} // verus!
