use capital_program::config::{InitProgramConfig, ProgramConfig};
use capital_program::errors::{
    ArithmeticError, AuthorizationError, ConfigError, CoreError, StateError,
};
use capital_program::vault::{InitVaultConfig, Vault};
use capital_program::MIN_LOCK_PERIOD;

const AGENT: u64 = 42;

fn program_config() -> ProgramConfig {
    let params = InitProgramConfig {
        agent: AGENT,
        early_unlock_fee: 0,
        dispute_window: 3600,
        max_lock_duration: 10 * MIN_LOCK_PERIOD,
        min_lock_duration: MIN_LOCK_PERIOD,
    };
    ProgramConfig::initialize(9, 13, &params).expect("initialization should succeed")
}

fn base_config() -> InitVaultConfig {
    InitVaultConfig {
        min_cap: 100,
        max_cap: 1000,
        min_lock_amount: 50,
        beneficiaries: vec![],
        investor_bps: 8000,
        max_slash_bps: 2000,
        slash_claimant: 77,
        reward_distributor: 11,
        node_operator: 5,
        lock_phase_duration: MIN_LOCK_PERIOD,
        lock_phase_start_time: 10_000,
    }
}

/// A vault filled to 1000 during funding, so that
/// `capital_after_slashing == total_capital_collected == 1000`.
fn filled_vault() -> (Vault, capital_program::position::Position) {
    let mut vault = Vault::create(&base_config(), 1, 2, 3, 0).expect("vault creation should succeed");
    let position = vault
        .open_position(1000, 900, 0)
        .expect("filling the vault during funding should succeed");
    (vault, position)
}

const UNLOCK_TIME: i64 = 10_000 + MIN_LOCK_PERIOD;

#[test]
fn slash_request_finalize_and_close_scale_payout() {
    // Request of 1000 bps on capital 1000 leaves 100 pending; approving the
    // full amount drops the effective capital to 900, and the sole
    // depositor of 1000 closes for floor(1000*900/1000) = 900.
    let config = program_config();
    let (mut vault, position) = filled_vault();
    vault
        .request_slash(&config, AGENT, 1000, 88, 11_000)
        .expect("a request within max_slash_bps should succeed");
    assert_eq!(vault.pending_slash_amount, 100);
    assert!(vault.is_dispute_active);
    assert_eq!(vault.slash_claimant, 88);
    assert_eq!(vault.dispute_start_time, 11_000);
    let transferred = vault
        .finalize_slash(&config, AGENT, true, 100)
        .expect("finalizing an active dispute should succeed");
    assert_eq!(transferred, 100);
    assert_eq!(vault.capital_after_slashing, 900);
    assert_eq!(vault.pending_slash_amount, 0);
    assert!(!vault.is_dispute_active);
    let payout = vault
        .close_position(position, UNLOCK_TIME)
        .expect("closing once unlockable should succeed");
    assert_eq!(payout, 900);
}

#[test]
fn slash_request_beyond_max_bps_fails_and_leaves_no_dispute() {
    let config = program_config();
    let (mut vault, _position) = filled_vault();
    assert_eq!(
        vault.request_slash(&config, AGENT, 2001, 88, 11_000),
        Err(CoreError::Config(ConfigError::SlashBpsExceedsMax))
    );
    assert!(!vault.is_dispute_active);
    assert_eq!(vault.pending_slash_amount, 0);
}

#[test]
fn slash_request_rejects_unauthorized_caller() {
    let config = program_config();
    let (mut vault, _position) = filled_vault();
    assert_eq!(
        vault.request_slash(&config, AGENT + 1, 1000, 88, 11_000),
        Err(CoreError::Authorization(AuthorizationError::UnauthorizedCaller))
    );
    assert!(!vault.is_dispute_active);
}

#[test]
fn only_one_dispute_at_a_time() {
    let config = program_config();
    let (mut vault, _position) = filled_vault();
    vault
        .request_slash(&config, AGENT, 1000, 88, 11_000)
        .expect("a request within max_slash_bps should succeed");
    assert_eq!(
        vault.request_slash(&config, AGENT, 500, 89, 11_001),
        Err(CoreError::State(StateError::VaultUnderDispute))
    );
}

#[test]
fn no_open_and_no_close_under_dispute() {
    let config = program_config();
    let (mut vault, position) = filled_vault();
    // Leave room under the cap by shrinking first.
    let mut shrunk = position;
    vault
        .update_position(&mut shrunk, -500, 0)
        .expect("a shrink during funding should succeed");
    vault
        .request_slash(&config, AGENT, 1000, 88, 100)
        .expect("a request within max_slash_bps should succeed");
    assert_eq!(
        vault.open_position(50, 901, 0),
        Err(CoreError::State(StateError::VaultUnderDispute))
    );
    assert_eq!(
        vault.close_position(shrunk, UNLOCK_TIME),
        Err(CoreError::State(StateError::VaultUnderDispute))
    );
}

#[test]
fn finalize_without_dispute_fails() {
    let config = program_config();
    let (mut vault, _position) = filled_vault();
    assert_eq!(
        vault.finalize_slash(&config, AGENT, true, 0),
        Err(CoreError::State(StateError::NoActiveDispute))
    );
}

#[test]
fn finalize_rejects_unauthorized_caller() {
    let config = program_config();
    let (mut vault, _position) = filled_vault();
    vault
        .request_slash(&config, AGENT, 1000, 88, 11_000)
        .expect("a request within max_slash_bps should succeed");
    assert_eq!(
        vault.finalize_slash(&config, AGENT + 1, true, 100),
        Err(CoreError::Authorization(AuthorizationError::UnauthorizedCaller))
    );
    assert!(vault.is_dispute_active);
}

#[test]
fn finalize_cannot_take_more_than_pending() {
    let config = program_config();
    let (mut vault, _position) = filled_vault();
    vault
        .request_slash(&config, AGENT, 1000, 88, 11_000)
        .expect("a request within max_slash_bps should succeed");
    assert_eq!(
        vault.finalize_slash(&config, AGENT, true, 101),
        Err(CoreError::State(StateError::SlashAmountExceedsPending))
    );
    assert!(vault.is_dispute_active);
    assert_eq!(vault.capital_after_slashing, 1000);
}

#[test]
fn finalize_rejection_changes_no_capital() {
    let config = program_config();
    let (mut vault, _position) = filled_vault();
    vault
        .request_slash(&config, AGENT, 1000, 88, 11_000)
        .expect("a request within max_slash_bps should succeed");
    let transferred = vault
        .finalize_slash(&config, AGENT, false, 100)
        .expect("a rejection should succeed");
    assert_eq!(transferred, 0);
    assert_eq!(vault.capital_after_slashing, 1000);
    assert_eq!(vault.pending_slash_amount, 0);
    assert!(!vault.is_dispute_active);
}

#[test]
fn pending_slash_amount_rounds_down() {
    let config = program_config();
    let mut vault_config = base_config();
    vault_config.min_lock_amount = 999;
    let mut vault =
        Vault::create(&vault_config, 1, 2, 3, 0).expect("vault creation should succeed");
    vault
        .open_position(999, 900, 0)
        .expect("opening during funding should succeed");
    // floor(999 * 1 / 10000) = 0: too small a stake to slash at 1 bps.
    vault
        .request_slash(&config, AGENT, 1, 88, 11_000)
        .expect("a request within max_slash_bps should succeed");
    assert_eq!(vault.pending_slash_amount, 0);
}

#[test]
fn slash_request_with_unrepresentable_amount_fails() {
    // With more than 10 000 bps allowed, the selected amount can leave the
    // representable range; such a request is rejected whole.
    let config = program_config();
    let mut vault_config = base_config();
    vault_config.max_cap = u64::MAX;
    vault_config.max_slash_bps = u16::MAX;
    let mut vault =
        Vault::create(&vault_config, 1, 2, 3, 0).expect("vault creation should succeed");
    vault
        .open_position(u64::MAX, 900, 0)
        .expect("filling the cap exactly should succeed");
    assert_eq!(
        vault.request_slash(&config, AGENT, 20_000, 88, 100),
        Err(CoreError::Arithmetic(ArithmeticError::Overflow))
    );
    assert!(!vault.is_dispute_active);
}

#[test]
fn approved_partial_slash_keeps_remainder() {
    let config = program_config();
    let (mut vault, _position) = filled_vault();
    vault
        .request_slash(&config, AGENT, 2000, 88, 11_000)
        .expect("a request within max_slash_bps should succeed");
    assert_eq!(vault.pending_slash_amount, 200);
    let transferred = vault
        .finalize_slash(&config, AGENT, true, 150)
        .expect("an approval up to the pending amount should succeed");
    assert_eq!(transferred, 150);
    assert_eq!(vault.capital_after_slashing, 850);
    assert_eq!(vault.pending_slash_amount, 0);
    assert!(!vault.is_dispute_active);
}

#[test]
fn underflow_error_when_update_raced_the_dispute() {
    // A dispute measured against a larger capital, followed by a funding
    // shrink, can leave the pending amount above what is left; an approval
    // of that much is then rejected as an arithmetic underflow.
    let config = program_config();
    let (mut vault, position) = filled_vault();
    vault
        .request_slash(&config, AGENT, 2000, 88, 100)
        .expect("a request within max_slash_bps should succeed");
    let mut shrunk = position;
    vault
        .update_position(&mut shrunk, -950, 0)
        .expect("a shrink during funding should succeed");
    assert_eq!(vault.capital_after_slashing, 50);
    assert_eq!(vault.pending_slash_amount, 200);
    assert_eq!(
        vault.finalize_slash(&config, AGENT, true, 200),
        Err(CoreError::Arithmetic(ArithmeticError::Underflow))
    );
}
