//! The process-wide program configuration: admin and agent identities, the
//! early-unlock fee, and the allowed lock-duration window. Created once at
//! program initialization and immutable thereafter; the surrounding system
//! must refuse re-initialization.

use vstd::prelude::*;

use crate::errors::{ArithmeticError, ConfigError, CoreError};
use crate::MIN_LOCK_PERIOD;

verus! {

/// Parameters the program configuration is initialized from.
#[derive(Clone, Copy, Debug)]
pub struct InitProgramConfig {
    /// Agent address for slash requests and finalization.
    pub agent: u64,
    /// Fee charged for an early unlock.
    pub early_unlock_fee: u64,
    /// Time window for dispute resolution, in seconds.
    pub dispute_window: i64,
    /// Longest allowed vault lock duration, in seconds.
    pub max_lock_duration: i64,
    /// Shortest allowed vault lock duration, in seconds.
    pub min_lock_duration: i64,
}

/// The immutable program configuration all vaults share.
#[derive(Clone, Copy, Debug, PartialEq, Eq, Structural)]
pub struct ProgramConfig {
    pub nft_program: u64,
    pub admin: u64,
    pub agent: u64,
    pub early_unlock_fee: u64,
    pub min_lock_duration: i64,
    pub max_lock_duration: i64,
}

/// What a well-formed initialization parameter set looks like: the agent
/// identity is present and the lock-duration window is representable and at
/// least [`MIN_LOCK_PERIOD`] wide. `ProgramConfig::initialize` succeeds on
/// exactly these inputs.
pub open spec fn valid_program_config(p: InitProgramConfig) -> bool {
    &&& p.agent != 0
    &&& i64::MIN <= p.max_lock_duration - p.min_lock_duration <= i64::MAX
    &&& p.max_lock_duration - p.min_lock_duration >= MIN_LOCK_PERIOD
}

/// The error an invalid initialization parameter set is rejected with, in
/// the order the checks run: a missing agent, an unrepresentable duration
/// window, a window that is too narrow.
pub open spec fn program_config_rejection(p: InitProgramConfig) -> Option<CoreError> {
    if p.agent == 0 {
        Some(CoreError::Config(ConfigError::InvalidAgentAddress))
    } else if !(i64::MIN <= p.max_lock_duration - p.min_lock_duration <= i64::MAX) {
        Some(CoreError::Arithmetic(ArithmeticError::Underflow))
    } else if p.max_lock_duration - p.min_lock_duration < MIN_LOCK_PERIOD {
        Some(CoreError::Config(ConfigError::LockDurationRangeTooNarrow))
    } else {
        None
    }
}

impl ProgramConfig {
    /// The configuration invariant: established at initialization, never
    /// mutated afterwards.
    pub open spec fn wf(self) -> bool {
        &&& self.agent != 0
        &&& self.max_lock_duration - self.min_lock_duration >= MIN_LOCK_PERIOD
    }

    /// Validates initialization parameters: the agent identity must be
    /// present and the configured lock-duration window at least
    /// [`MIN_LOCK_PERIOD`] wide.
    pub fn validate_params(params: &InitProgramConfig) -> (r: Result<(), CoreError>)
        ensures
            r is Ok <==> valid_program_config(*params),
            r matches Err(e) ==> program_config_rejection(*params) == Some(e),
    {
        if params.agent == 0 {
            return Err(CoreError::Config(ConfigError::InvalidAgentAddress));
        }
        let duration_range: i64 = match params.max_lock_duration.checked_sub(
            params.min_lock_duration,
        ) {
            Some(d) => d,
            None => {
                return Err(CoreError::Arithmetic(ArithmeticError::Underflow));
            },
        };
        if duration_range < MIN_LOCK_PERIOD {
            return Err(CoreError::Config(ConfigError::LockDurationRangeTooNarrow));
        }
        Ok(())
    }

    /// Initializes the program configuration from validated parameters,
    /// recording the admin who created it and the asset-registry program it
    /// works with. Succeeds on exactly the parameter sets in
    /// [`valid_program_config`].
    pub fn initialize(admin: u64, nft_program: u64, params: &InitProgramConfig) -> (r: Result<
        ProgramConfig,
        CoreError,
    >)
        ensures
            r is Ok <==> valid_program_config(*params),
            r matches Err(e) ==> program_config_rejection(*params) == Some(e),
            r matches Ok(c) ==> {
                &&& c.wf()
                &&& c.nft_program == nft_program
                &&& c.admin == admin
                &&& c.agent == params.agent
                &&& c.early_unlock_fee == params.early_unlock_fee
                &&& c.min_lock_duration == params.min_lock_duration
                &&& c.max_lock_duration == params.max_lock_duration
            },
    {
        match Self::validate_params(params) {
            Ok(()) => (),
            Err(e) => {
                return Err(e);
            },
        }
        Ok(
            ProgramConfig {
                nft_program,
                admin,
                agent: params.agent,
                early_unlock_fee: params.early_unlock_fee,
                min_lock_duration: params.min_lock_duration,
                max_lock_duration: params.max_lock_duration,
            },
        )
    }
}

} // verus!
