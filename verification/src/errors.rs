//! Error taxonomy of the accounting core.
//!
//! Every fallible operation is all-or-nothing: on any error no field of a
//! vault or position is mutated and no transfer amount is handed out.

use vstd::prelude::*;

verus! {

/// Invalid creation or initialization parameters. Surfaced to the caller,
/// never retried; no state is mutated.
#[derive(Clone, Copy, Debug, PartialEq, Eq, Structural)]
pub enum ConfigError {
    /// The agent identity of the program configuration is absent.
    InvalidAgentAddress,
    /// The configured lock-duration window is narrower than the least width.
    LockDurationRangeTooNarrow,
    /// Two beneficiaries of a new vault share one address.
    DuplicateBeneficiary,
    /// A beneficiary of a new vault has a zero share.
    BeneficiaryShareMustBePositive,
    /// Beneficiary shares and the investor share together exceed 100%.
    BpsExceedsMaximum,
    /// The lock phase of a new vault is shorter than the least lock period.
    LockPhaseTooShort,
    /// A new vault's maximum capital cap does not exceed its minimum cap.
    InvalidCapitalRange,
    /// A new vault's minimum capital cap is zero.
    MinCapMustBePositive,
    /// A new vault's minimum lock amount is zero.
    MinLockAmountMustBePositive,
    /// The lock phase would start before the least fund-raise window passes.
    LockPhaseStartsTooSoon,
    /// A slash request asks for more basis points than the vault allows.
    SlashBpsExceedsMax,
}

/// An operation was attempted outside its required vault phase.
#[derive(Clone, Copy, Debug, PartialEq, Eq, Structural)]
pub enum PhaseError {
    /// Positions can only be opened or updated while the vault is funding.
    LockPhaseAlreadyStarted,
    /// The vault is not in the phase the operation requires.
    InvalidPhase,
}

/// A checked arithmetic step would leave the representable range. Fatal for
/// the failing call: it signals malicious input or a logic defect upstream,
/// never a transient condition.
#[derive(Clone, Copy, Debug, PartialEq, Eq, Structural)]
pub enum ArithmeticError {
    Overflow,
    Underflow,
    /// A capital or reward amount must be positive.
    AmountMustBePositive,
}

/// A deposit does not fit the vault's capital bounds.
#[derive(Clone, Copy, Debug, PartialEq, Eq, Structural)]
pub enum CapacityError {
    /// The deposit would push collected capital past the maximum cap.
    MaxCapReached,
    /// The deposit is below the vault's minimum lock amount.
    BelowMinLockAmount,
}

/// The caller's identity fails the check for a gated operation.
#[derive(Clone, Copy, Debug, PartialEq, Eq, Structural)]
pub enum AuthorizationError {
    /// Only the configured agent may request or finalize a slash.
    UnauthorizedCaller,
}

/// The operation is well-formed but the current aggregate state forbids it.
#[derive(Clone, Copy, Debug, PartialEq, Eq, Structural)]
pub enum StateError {
    /// The position or beneficiary has no rewards to claim right now.
    NoRewardsToClaim,
    /// A position with unclaimed rewards cannot be closed.
    PositionNotEmpty,
    /// While a dispute is active no position may open or close and no
    /// further slash may be requested.
    VaultUnderDispute,
    /// A slash can only be finalized while a dispute is active.
    NoActiveDispute,
    /// An approved slash cannot take more than the pending slash amount.
    SlashAmountExceedsPending,
    /// Reward shares are proportional to collected capital, so they are
    /// undefined while the vault holds none.
    NoCapital,
    /// The beneficiary index is outside the vault's beneficiary list.
    InvalidBeneficiaryIndex,
}

/// Any error of the accounting core, grouped by the class it belongs to.
#[derive(Clone, Copy, Debug, PartialEq, Eq, Structural)]
pub enum CoreError {
    Config(ConfigError),
    Phase(PhaseError),
    Arithmetic(ArithmeticError),
    Capacity(CapacityError),
    Authorization(AuthorizationError),
    State(StateError),
}

} // verus!
