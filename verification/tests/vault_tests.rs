use capital_program::config::{InitProgramConfig, ProgramConfig};
use capital_program::errors::{ArithmeticError, ConfigError, CoreError};
use capital_program::vault::{Beneficiary, InitVaultConfig, Phase, Vault};
use capital_program::{MIN_FUND_RAISE_DURATION, MIN_LOCK_PERIOD};

fn beneficiary(address: u64, share_bps: u16) -> Beneficiary {
    Beneficiary {
        address,
        share_bps,
        rewards_claimed: 0,
    }
}

fn base_config() -> InitVaultConfig {
    InitVaultConfig {
        min_cap: 100,
        max_cap: 1000,
        min_lock_amount: 50,
        beneficiaries: vec![beneficiary(201, 1000), beneficiary(202, 500)],
        investor_bps: 8000,
        max_slash_bps: 2000,
        slash_claimant: 77,
        reward_distributor: 11,
        node_operator: 5,
        lock_phase_duration: MIN_LOCK_PERIOD,
        lock_phase_start_time: 10_000,
    }
}

fn make_vault(config: &InitVaultConfig) -> Vault {
    Vault::create(config, 1, 2, 3, 0).expect("vault creation should succeed")
}

#[test]
fn test_init_capital_program() {
    let params = InitProgramConfig {
        agent: 42,
        early_unlock_fee: 7,
        dispute_window: 3600,
        max_lock_duration: 10 * MIN_LOCK_PERIOD,
        min_lock_duration: MIN_LOCK_PERIOD,
    };
    let config = ProgramConfig::initialize(9, 13, &params).expect("initialization should succeed");
    assert_eq!(config.agent, 42);
    assert_eq!(config.admin, 9);
    assert_eq!(config.nft_program, 13);
    assert_eq!(config.early_unlock_fee, 7);
}

#[test]
fn init_program_rejects_missing_agent() {
    let params = InitProgramConfig {
        agent: 0,
        early_unlock_fee: 0,
        dispute_window: 3600,
        max_lock_duration: 10 * MIN_LOCK_PERIOD,
        min_lock_duration: MIN_LOCK_PERIOD,
    };
    assert_eq!(
        ProgramConfig::initialize(9, 13, &params),
        Err(CoreError::Config(ConfigError::InvalidAgentAddress))
    );
}

#[test]
fn init_program_rejects_narrow_duration_window() {
    let params = InitProgramConfig {
        agent: 42,
        early_unlock_fee: 0,
        dispute_window: 3600,
        max_lock_duration: 2 * MIN_LOCK_PERIOD,
        min_lock_duration: MIN_LOCK_PERIOD + 1,
    };
    assert_eq!(
        ProgramConfig::initialize(9, 13, &params),
        Err(CoreError::Config(ConfigError::LockDurationRangeTooNarrow))
    );
}

#[test]
fn init_program_rejects_unrepresentable_window() {
    let params = InitProgramConfig {
        agent: 42,
        early_unlock_fee: 0,
        dispute_window: 3600,
        max_lock_duration: i64::MAX,
        min_lock_duration: -1,
    };
    assert_eq!(
        ProgramConfig::initialize(9, 13, &params),
        Err(CoreError::Arithmetic(ArithmeticError::Underflow))
    );
}

#[test]
fn create_vault_initializes_totals_to_zero() {
    let vault = make_vault(&base_config());
    assert_eq!(vault.total_capital_collected, 0);
    assert_eq!(vault.total_rewards_deposited, 0);
    assert_eq!(vault.capital_after_slashing, 0);
    assert_eq!(vault.pending_slash_amount, 0);
    assert!(!vault.is_dispute_active);
    assert_eq!(vault.beneficiaries.len(), 2);
    assert_eq!(vault.beneficiaries[0].address, 201);
    assert_eq!(vault.beneficiaries[0].share_bps, 1000);
    assert_eq!(vault.beneficiaries[0].rewards_claimed, 0);
    assert!(vault.is_well_formed());
}

#[test]
fn create_vault_rejects_duplicate_beneficiary() {
    let mut config = base_config();
    config.beneficiaries = vec![beneficiary(201, 1000), beneficiary(201, 500)];
    assert_eq!(Vault::create(&config, 1, 2, 3, 0).unwrap_err(), CoreError::Config(ConfigError::DuplicateBeneficiary));
}

#[test]
fn create_vault_rejects_zero_share() {
    let mut config = base_config();
    config.beneficiaries = vec![beneficiary(201, 0)];
    assert_eq!(Vault::create(&config, 1, 2, 3, 0).unwrap_err(), CoreError::Config(ConfigError::BeneficiaryShareMustBePositive));
}

#[test]
fn create_vault_rejects_shares_beyond_base() {
    let mut config = base_config();
    config.beneficiaries = vec![beneficiary(201, 1500), beneficiary(202, 600)];
    // 1500 + 600 + 8000 = 10 100 > 10 000
    assert_eq!(Vault::create(&config, 1, 2, 3, 0).unwrap_err(), CoreError::Config(ConfigError::BpsExceedsMaximum));
}

#[test]
fn create_vault_accepts_shares_filling_base_exactly() {
    let mut config = base_config();
    config.beneficiaries = vec![beneficiary(201, 1500), beneficiary(202, 500)];
    // 1500 + 500 + 8000 == 10 000
    assert!(Vault::create(&config, 1, 2, 3, 0).is_ok());
}

#[test]
fn create_vault_rejects_short_lock_phase() {
    let mut config = base_config();
    config.lock_phase_duration = MIN_LOCK_PERIOD - 1;
    assert_eq!(Vault::create(&config, 1, 2, 3, 0).unwrap_err(), CoreError::Config(ConfigError::LockPhaseTooShort));
}

#[test]
fn create_vault_rejects_unordered_caps() {
    let mut config = base_config();
    config.min_cap = 1000;
    config.max_cap = 1000;
    assert_eq!(Vault::create(&config, 1, 2, 3, 0).unwrap_err(), CoreError::Config(ConfigError::InvalidCapitalRange));
}

#[test]
fn create_vault_rejects_zero_min_cap() {
    let mut config = base_config();
    config.min_cap = 0;
    assert_eq!(Vault::create(&config, 1, 2, 3, 0).unwrap_err(), CoreError::Config(ConfigError::MinCapMustBePositive));
}

#[test]
fn create_vault_rejects_zero_min_lock_amount() {
    let mut config = base_config();
    config.min_lock_amount = 0;
    assert_eq!(Vault::create(&config, 1, 2, 3, 0).unwrap_err(), CoreError::Config(ConfigError::MinLockAmountMustBePositive));
}

#[test]
fn create_vault_rejects_lock_phase_starting_too_soon() {
    let config = base_config();
    // Creation at an instant from which the fund-raise window cannot fit
    // before the configured lock start.
    let now = config.lock_phase_start_time - MIN_FUND_RAISE_DURATION + 1;
    assert_eq!(Vault::create(&config, 1, 2, 3, now).unwrap_err(), CoreError::Config(ConfigError::LockPhaseStartsTooSoon));
    let just_in_time = config.lock_phase_start_time - MIN_FUND_RAISE_DURATION;
    assert!(Vault::create(&config, 1, 2, 3, just_in_time).is_ok());
}

#[test]
fn create_vault_accepts_empty_beneficiary_list() {
    let mut config = base_config();
    config.beneficiaries = vec![];
    let vault = Vault::create(&config, 1, 2, 3, 0).expect("no beneficiaries is a valid setup");
    assert_eq!(vault.beneficiaries.len(), 0);
}

#[test]
fn phase_is_funding_before_lock_start() {
    let mut vault = make_vault(&base_config());
    assert_eq!(vault.phase(0), Phase::Funding);
    assert_eq!(vault.phase(9_999), Phase::Funding);
    // A filled vault is locked from the start instant on.
    vault
        .open_position(1000, 900, 0)
        .expect("filling the vault during funding should succeed");
    assert_eq!(vault.phase(10_000), Phase::Locked);
}

#[test]
fn phase_is_unlockable_after_lock_window() {
    let mut vault = make_vault(&base_config());
    vault
        .open_position(1000, 900, 0)
        .expect("filling the vault during funding should succeed");
    let lock_end = 10_000 + MIN_LOCK_PERIOD;
    assert_eq!(vault.phase(lock_end - 1), Phase::Locked);
    assert_eq!(vault.phase(lock_end), Phase::Unlockable);
}

#[test]
fn phase_unlocks_early_on_funding_shortfall() {
    let mut vault = make_vault(&base_config());
    // 99 < min_cap of 100: the raise fell short of its floor.
    vault
        .open_position(99, 900, 0)
        .expect("a deposit below min_cap still opens");
    assert_eq!(vault.phase(10_000), Phase::Locked);
    assert_eq!(vault.phase(10_001), Phase::Unlockable);
}
