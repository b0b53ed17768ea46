//! The oracle state machine: a record holding one validation verdict per
//! asset operation, of which only the transfer verdict ever changes. It is
//! initialized to match the current market state and thereafter flipped
//! exactly once per market transition by `crank_oracle`, which rejects a
//! crank that would change nothing and conditionally pays a fixed reward
//! out of a pre-funded pool for cranks landing near an open/close boundary.

use vstd::prelude::*;
use crate::market_clock::{
    is_us_market_open, is_within_15_minutes_of_market_open_or_close, spec_is_market_open,
    spec_is_near_open_or_close,
};

verus! {

/// Reward paid for a timely crank, in lamports (minor units).
pub const REWARD_IN_LAMPORTS: u64 = 10000000;

/// A single validation verdict, consumed downstream to gate one asset
/// operation.
#[derive(Clone, Copy, PartialEq, Eq, Structural, Debug)]
pub enum ExternalValidationResult {
    Approved,
    Rejected,
    Pass,
}

/// The verdicts for the four asset operations. Only `transfer` ever
/// changes at runtime; the other three stay `Pass` for the oracle's
/// lifetime.
#[derive(Clone, Copy, PartialEq, Eq, Structural, Debug)]
pub struct OracleValidation {
    pub transfer: ExternalValidationResult,
    pub create: ExternalValidationResult,
    pub update: ExternalValidationResult,
    pub burn: ExternalValidationResult,
}

/// The oracle record: the current validation verdicts.
#[derive(Clone, Copy, PartialEq, Eq, Structural, Debug)]
pub struct Oracle {
    pub validation: OracleValidation,
}

/// The pre-funded balance from which timely cranks are rewarded;
/// associated one-to-one with an oracle.
#[derive(Clone, Copy, PartialEq, Eq, Structural, Debug)]
pub struct RewardPool {
    pub lamports: u64,
}

/// The one domain-level error: a crank whose flip would change nothing.
#[derive(Clone, Copy, PartialEq, Eq, Structural, Debug)]
pub enum Errors {
    AlreadyUpdated,
}

/// The transfer verdict implied by a market state: `Approved` when the
/// market is open, `Rejected` when it is closed.
pub open spec fn implied_transfer_verdict(market_open: bool) -> ExternalValidationResult {
    if market_open {
        ExternalValidationResult::Approved
    } else {
        ExternalValidationResult::Rejected
    }
}

/// The full validation record with the given transfer verdict and `Pass`
/// for create, update and burn.
pub open spec fn validation_with_transfer(transfer: ExternalValidationResult) -> OracleValidation {
    OracleValidation {
        transfer,
        create: ExternalValidationResult::Pass,
        update: ExternalValidationResult::Pass,
        burn: ExternalValidationResult::Pass,
    }
}

/// The oracle state matching a market state: the implied transfer verdict,
/// everything else `Pass`.
pub open spec fn oracle_for_market(market_open: bool) -> Oracle {
    Oracle { validation: validation_with_transfer(implied_transfer_verdict(market_open)) }
}

/// A crank succeeds exactly when the stored validation is the one implied
/// by the *opposite* market state, so that the flip changes the verdict.
pub open spec fn crank_succeeds(oracle: Oracle, market_open: bool) -> bool {
    oracle.validation == validation_with_transfer(implied_transfer_verdict(!market_open))
}

impl Oracle {
    /// The oracle's invariant: the transfer verdict is `Approved` or
    /// `Rejected`, and the three constant verdicts are `Pass`.
    pub open spec fn wf(self) -> bool {
        &&& (self.validation.transfer == ExternalValidationResult::Approved
            || self.validation.transfer == ExternalValidationResult::Rejected)
        &&& self.validation.create == ExternalValidationResult::Pass
        &&& self.validation.update == ExternalValidationResult::Pass
        &&& self.validation.burn == ExternalValidationResult::Pass
    }
}

/// Creates the oracle in the state matching the market status at `now`:
/// transfer `Approved` if the market is open, `Rejected` otherwise, with
/// `Pass` for create, update and burn.
pub fn create_oracle(now: i64) -> (oracle: Oracle)
    ensures
        oracle == oracle_for_market(spec_is_market_open(now as int)),
        oracle.wf(),
{
    match is_us_market_open(now) {
        true => Oracle {
            validation: OracleValidation {
                transfer: ExternalValidationResult::Approved,
                create: ExternalValidationResult::Pass,
                update: ExternalValidationResult::Pass,
                burn: ExternalValidationResult::Pass,
            },
        },
        false => Oracle {
            validation: OracleValidation {
                transfer: ExternalValidationResult::Rejected,
                create: ExternalValidationResult::Pass,
                update: ExternalValidationResult::Pass,
                burn: ExternalValidationResult::Pass,
            },
        },
    }
}

/// Re-evaluates the market state at `now` and flips the oracle's transfer
/// verdict to match it. Fails with `AlreadyUpdated` — leaving the oracle
/// and the pool untouched — when the stored verdict already matches, so a
/// redundant crank is rejected rather than silently ignored. On success,
/// if `now` lies within the open/close margin and the pool holds strictly
/// more than the fixed reward, exactly that reward is debited from the
/// pool and returned as `Some(amount)` owed to the caller; otherwise no
/// reward moves and `Ok(None)` is returned.
pub fn crank_oracle(oracle: &mut Oracle, reward_pool: &mut RewardPool, now: i64) -> (r: Result<
    Option<u64>,
    Errors,
>)
    ensures
        r is Ok <==> crank_succeeds(*old(oracle), spec_is_market_open(now as int)),
        r is Err ==> {
            &&& r == Err::<Option<u64>, Errors>(Errors::AlreadyUpdated)
            &&& *final(oracle) == *old(oracle)
            &&& *final(reward_pool) == *old(reward_pool)
        },
        r is Ok ==> *final(oracle) == oracle_for_market(spec_is_market_open(now as int)),
        r is Ok ==> final(oracle).wf(),
        (r is Ok && spec_is_near_open_or_close(now as int) && old(reward_pool).lamports
            > REWARD_IN_LAMPORTS) ==> {
            &&& r == Ok::<Option<u64>, Errors>(Some(REWARD_IN_LAMPORTS))
            &&& final(reward_pool).lamports == old(reward_pool).lamports - REWARD_IN_LAMPORTS
        },
        (r is Ok && !(spec_is_near_open_or_close(now as int) && old(reward_pool).lamports
            > REWARD_IN_LAMPORTS)) ==> {
            &&& r == Ok::<Option<u64>, Errors>(None)
            &&& *final(reward_pool) == *old(reward_pool)
        },
{
    match is_us_market_open(now) {
        true => {
            if !(oracle.validation == (OracleValidation {
                transfer: ExternalValidationResult::Rejected,
                create: ExternalValidationResult::Pass,
                update: ExternalValidationResult::Pass,
                burn: ExternalValidationResult::Pass,
            })) {
                return Err(Errors::AlreadyUpdated);
            }
            oracle.validation = OracleValidation {
                transfer: ExternalValidationResult::Approved,
                create: ExternalValidationResult::Pass,
                update: ExternalValidationResult::Pass,
                burn: ExternalValidationResult::Pass,
            };
        },
        false => {
            if !(oracle.validation == (OracleValidation {
                transfer: ExternalValidationResult::Approved,
                create: ExternalValidationResult::Pass,
                update: ExternalValidationResult::Pass,
                burn: ExternalValidationResult::Pass,
            })) {
                return Err(Errors::AlreadyUpdated);
            }
            oracle.validation = OracleValidation {
                transfer: ExternalValidationResult::Rejected,
                create: ExternalValidationResult::Pass,
                update: ExternalValidationResult::Pass,
                burn: ExternalValidationResult::Pass,
            };
        },
    }

    if is_within_15_minutes_of_market_open_or_close(now) && reward_pool.lamports
        > REWARD_IN_LAMPORTS {
        // Reward the cranker for updating the oracle within the margin of
        // market open or close.
        reward_pool.lamports = reward_pool.lamports - REWARD_IN_LAMPORTS;
        Ok(Some(REWARD_IN_LAMPORTS))
    } else {
        Ok(None)
    }
}

/// Idempotence guard: the state a successful crank leaves behind for a
/// market state cannot be cranked again at that same market state — the
/// second attempt fails (and, by `crank_oracle`'s contract, leaves the
/// oracle and the pool unchanged).
pub proof fn lemma_crank_idempotence_guard(market_open: bool)
    ensures
        !crank_succeeds(oracle_for_market(market_open), market_open),
{
}

/// State alternation: starting from the oracle created at market state
/// `open_at_create`, a crank at market state `open_at_crank` succeeds
/// exactly when the market state flipped in between, and the successful
/// crank inverts the stored transfer verdict.
pub proof fn lemma_state_alternation(open_at_create: bool, open_at_crank: bool)
    ensures
        crank_succeeds(oracle_for_market(open_at_create), open_at_crank) <==> (open_at_create
            != open_at_crank),
        open_at_create != open_at_crank ==> oracle_for_market(
            open_at_crank,
        ).validation.transfer != oracle_for_market(open_at_create).validation.transfer,
{
}

} // verus!
