use vstd::prelude::*;

use crate::error::ChitFundError;
use crate::state::{ChitFund, FundView, Participant, ParticipantView, Pubkey};

verus! {

/// Notification of one participant's contribution for one cycle.
#[derive(Clone, Copy, Debug, PartialEq, Eq)]
pub struct ContributionMade {
    pub chit_fund: Pubkey,
    pub participant: Pubkey,
    pub cycle: u8,
    pub amount: u64,
    pub contribution_time: i64,
}

/// The first check a contribution fails, if any.
pub open spec fn contribution_error(
    f: FundView,
    p: ParticipantView,
    user: Pubkey,
    asset: Pubkey,
    user_balance: u64,
) -> Option<ChitFundError> {
    if !f.is_active {
        Some(ChitFundError::ChitFundInactive)
    } else if p.owner != user {
        Some(ChitFundError::Unauthorized)
    } else if p.contributions[f.current_cycle as int] {
        Some(ChitFundError::ContributionAlreadyMade)
    } else if user_balance < f.contribution_amount {
        Some(ChitFundError::InsufficientFunds)
    } else if asset != p.usdc_address {
        Some(ChitFundError::InvalidContributionMint)
    } else if f.total_contribution_amount + f.contribution_amount > u64::MAX
        || p.total_contributed + f.contribution_amount > i128::MAX {
        Some(ChitFundError::AmountOverflow)
    } else {
        None
    }
}

/// The fund after one contribution is pooled.
pub open spec fn fund_after_contribution(f: FundView) -> FundView {
    FundView {
        total_contribution_amount: (f.total_contribution_amount + f.contribution_amount) as u64,
        ..f
    }
}

/// The contributor's record after contributing for the current cycle at `now`.
pub open spec fn participant_after_contribution(
    f: FundView,
    p: ParticipantView,
    now: i64,
) -> ParticipantView {
    ParticipantView {
        contributions: p.contributions.update(f.current_cycle as int, true),
        last_contribution_time: now,
        total_contributed: (p.total_contributed + f.contribution_amount) as i128,
        ..p
    }
}

/// Records the contribution of `participant`, owned by the caller `user`,
/// for the current cycle at time `now`, paid from the account `asset` that
/// holds `user_balance`. The caller transfers the fund's contribution amount
/// into the contribution pool.
pub fn make_contribution(
    fund: &mut ChitFund,
    participant: &mut Participant,
    user: Pubkey,
    asset: Pubkey,
    user_balance: u64,
    now: i64,
    fund_key: Pubkey,
    participant_key: Pubkey,
) -> (r: Result<ContributionMade, ChitFundError>)
    requires
        old(fund).wf(),
        old(participant).wf(),
    ensures
        final(fund).wf(),
        final(participant).wf(),
        match r {
            Ok(ev) => {
                &&& contribution_error(old(fund)@, old(participant)@, user, asset, user_balance)
                    is None
                &&& final(fund)@ == fund_after_contribution(old(fund)@)
                &&& final(participant)@ == participant_after_contribution(
                    old(fund)@,
                    old(participant)@,
                    now,
                )
                &&& ev == (ContributionMade {
                    chit_fund: fund_key,
                    participant: participant_key,
                    cycle: old(fund).current_cycle,
                    amount: old(fund).contribution_amount,
                    contribution_time: now,
                })
            },
            Err(e) => {
                &&& contribution_error(old(fund)@, old(participant)@, user, asset, user_balance)
                    == Some(e)
                &&& final(fund)@ == old(fund)@
                &&& final(participant)@ == old(participant)@
            },
        },
{
    if !fund.is_active {
        return Err(ChitFundError::ChitFundInactive);
    }
    if !participant.owner.same_as(&user) {
        return Err(ChitFundError::Unauthorized);
    }
    let cycle = fund.current_cycle;
    if participant.contributions[cycle as usize] {
        return Err(ChitFundError::ContributionAlreadyMade);
    }
    let amount = fund.contribution_amount;
    if user_balance < amount {
        return Err(ChitFundError::InsufficientFunds);
    }
    if !asset.same_as(&participant.usdc_address) {
        return Err(ChitFundError::InvalidContributionMint);
    }
    if fund.total_contribution_amount > u64::MAX - amount || participant.total_contributed
        > i128::MAX - amount as i128 {
        return Err(ChitFundError::AmountOverflow);
    }
    participant.contributions.set(cycle as usize, true);
    participant.last_contribution_time = now;
    participant.total_contributed = participant.total_contributed + amount as i128;
    fund.total_contribution_amount = fund.total_contribution_amount + amount;
    Ok(
        ContributionMade {
            chit_fund: fund_key,
            participant: participant_key,
            cycle,
            amount,
            contribution_time: now,
        },
    )
}

} // verus!
