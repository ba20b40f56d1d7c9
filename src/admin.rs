use vstd::prelude::*;

use crate::error::ChitFundError;
use crate::state::{ChitFund, FundView, Pubkey, MAX_CYCLES, MAX_PARTICIPANTS, MIN_CYCLE_DURATION};

verus! {

/// Notification of a newly configured fund.
#[derive(Clone, Copy, Debug, PartialEq, Eq)]
pub struct ChitFundInitialized {
    pub chit_fund: Pubkey,
    pub creator: Pubkey,
    pub contribution_amount: u64,
    pub total_cycles: u8,
    pub max_participants: u8,
    pub mint_address: Pubkey,
}

/// The first configuration check that fails, if any.
pub open spec fn initialize_error(
    cycle_duration: i64,
    total_cycles: u8,
    max_participants: u8,
    schedule_len: nat,
) -> Option<ChitFundError> {
    if total_cycles > MAX_CYCLES {
        Some(ChitFundError::ExceedsMaximumCycles)
    } else if total_cycles == 0 {
        Some(ChitFundError::InvalidCycle)
    } else if cycle_duration < MIN_CYCLE_DURATION {
        Some(ChitFundError::InvalidCycleDuration)
    } else if max_participants > MAX_PARTICIPANTS {
        Some(ChitFundError::ExceedsMaximumParticipants)
    } else if schedule_len < total_cycles as nat {
        Some(ChitFundError::InvalidDisbursementSchedule)
    } else {
        None
    }
}

/// A freshly configured fund: cycle zero, active, empty roster, empty pool.
pub open spec fn initialized_fund(
    creator: Pubkey,
    mint: Pubkey,
    contribution_vault: Pubkey,
    collateral_vault: Pubkey,
    contribution_amount: u64,
    cycle_duration: i64,
    total_cycles: u8,
    collateral_requirement: u64,
    max_participants: u8,
    disbursement_schedule: Seq<u64>,
    now: i64,
) -> FundView {
    FundView {
        creator,
        mint_address: mint,
        contribution_amount,
        cycle_duration,
        total_cycles,
        collateral_requirement,
        max_participants,
        current_cycle: 0,
        is_active: true,
        last_disbursement_time: now,
        participants: Seq::empty(),
        participants_count: 0,
        borrowed_participants: Seq::empty(),
        disbursement_schedule,
        contribution_vault,
        collateral_vault,
        total_contribution_amount: 0,
    }
}

/// Creates a fund for the asset `mint` at time `now`. The schedule holds the
/// payout of each cycle; entries past `total_cycles` are ignored.
pub fn initialize_chit_fund(
    creator: Pubkey,
    mint: Pubkey,
    contribution_vault: Pubkey,
    collateral_vault: Pubkey,
    contribution_amount: u64,
    cycle_duration: i64,
    total_cycles: u8,
    collateral_requirement: u64,
    max_participants: u8,
    disbursement_schedule: Vec<u64>,
    now: i64,
    fund_key: Pubkey,
) -> (r: Result<(ChitFund, ChitFundInitialized), ChitFundError>)
    ensures
        match r {
            Ok((f, ev)) => {
                &&& initialize_error(
                    cycle_duration,
                    total_cycles,
                    max_participants,
                    disbursement_schedule@.len(),
                ) is None
                &&& f.wf()
                &&& f@ == initialized_fund(
                    creator,
                    mint,
                    contribution_vault,
                    collateral_vault,
                    contribution_amount,
                    cycle_duration,
                    total_cycles,
                    collateral_requirement,
                    max_participants,
                    disbursement_schedule@,
                    now,
                )
                &&& f.current_cycle == 0 && f.is_active && f.participants@.len() == 0
                &&& ev == (ChitFundInitialized {
                    chit_fund: fund_key,
                    creator,
                    contribution_amount,
                    total_cycles,
                    max_participants,
                    mint_address: mint,
                })
            },
            Err(e) => initialize_error(
                cycle_duration,
                total_cycles,
                max_participants,
                disbursement_schedule@.len(),
            ) == Some(e),
        },
{
    if total_cycles > MAX_CYCLES {
        return Err(ChitFundError::ExceedsMaximumCycles);
    }
    if total_cycles == 0 {
        return Err(ChitFundError::InvalidCycle);
    }
    if cycle_duration < MIN_CYCLE_DURATION {
        return Err(ChitFundError::InvalidCycleDuration);
    }
    if max_participants > MAX_PARTICIPANTS {
        return Err(ChitFundError::ExceedsMaximumParticipants);
    }
    if disbursement_schedule.len() < total_cycles as usize {
        return Err(ChitFundError::InvalidDisbursementSchedule);
    }
    let fund = ChitFund {
        creator,
        mint_address: mint,
        contribution_amount,
        cycle_duration,
        total_cycles,
        collateral_requirement,
        max_participants,
        current_cycle: 0,
        is_active: true,
        last_disbursement_time: now,
        participants: Vec::new(),
        participants_count: 0,
        borrowed_participants: Vec::new(),
        disbursement_schedule,
        contribution_vault,
        collateral_vault,
        total_contribution_amount: 0,
    };
    let event = ChitFundInitialized {
        chit_fund: fund_key,
        creator,
        contribution_amount,
        total_cycles,
        max_participants,
        mint_address: mint,
    };
    Ok((fund, event))
}

} // verus!
