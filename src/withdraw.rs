use vstd::prelude::*;

use crate::error::ChitFundError;
use crate::state::{ChitFund, FundView, Participant, ParticipantView, Pubkey};

verus! {

/// Notification of a released collateral.
#[derive(Clone, Copy, Debug, PartialEq, Eq)]
pub struct CollateralWithdrawn {
    pub chit_fund: Pubkey,
    pub participant: Pubkey,
    pub amount: u64,
    pub withdraw_time: i64,
}

/// The first check a collateral withdrawal fails, if any.
pub open spec fn withdraw_error(
    f: FundView,
    p: ParticipantView,
    user: Pubkey,
    asset: Pubkey,
) -> Option<ChitFundError> {
    if f.is_active {
        Some(ChitFundError::ChitFundActive)
    } else if p.owner != user {
        Some(ChitFundError::Unauthorized)
    } else if !p.has_borrowed {
        Some(ChitFundError::WithdrawBeforeBorrowing)
    } else if p.collateral_withdrawn {
        Some(ChitFundError::CollateralAlreadyWithdrawn)
    } else if asset != p.usdc_address {
        Some(ChitFundError::InvalidContributionMint)
    } else if f.collateral_requirement > f.total_contribution_amount
        || p.total_contributed - f.collateral_requirement < i128::MIN {
        Some(ChitFundError::AmountOverflow)
    } else {
        None
    }
}

/// The fund after one participant's collateral leaves the pool.
pub open spec fn fund_after_withdrawal(f: FundView) -> FundView {
    FundView {
        total_contribution_amount: (f.total_contribution_amount - f.collateral_requirement) as u64,
        ..f
    }
}

/// The participant's record after its collateral is released.
pub open spec fn participant_after_withdrawal(f: FundView, p: ParticipantView) -> ParticipantView {
    ParticipantView {
        total_contributed: (p.total_contributed - f.collateral_requirement) as i128,
        collateral_withdrawn: true,
        ..p
    }
}

/// Releases the collateral of `participant`, owned by the caller `user`,
/// once the fund has concluded and the participant has borrowed. The caller
/// transfers the returned amount, the fund's collateral requirement, from the
/// collateral pool to the account `asset`.
pub fn withdraw_collateral(
    fund: &mut ChitFund,
    participant: &mut Participant,
    user: Pubkey,
    asset: Pubkey,
    now: i64,
    fund_key: Pubkey,
    participant_key: Pubkey,
) -> (r: Result<CollateralWithdrawn, ChitFundError>)
    requires
        old(fund).wf(),
        old(participant).wf(),
    ensures
        final(fund).wf(),
        final(participant).wf(),
        match r {
            Ok(ev) => {
                &&& withdraw_error(old(fund)@, old(participant)@, user, asset) is None
                &&& final(fund)@ == fund_after_withdrawal(old(fund)@)
                &&& final(participant)@ == participant_after_withdrawal(
                    old(fund)@,
                    old(participant)@,
                )
                &&& ev == (CollateralWithdrawn {
                    chit_fund: fund_key,
                    participant: participant_key,
                    amount: old(fund).collateral_requirement,
                    withdraw_time: now,
                })
            },
            Err(e) => {
                &&& withdraw_error(old(fund)@, old(participant)@, user, asset) == Some(e)
                &&& final(fund)@ == old(fund)@
                &&& final(participant)@ == old(participant)@
            },
        },
{
    if fund.is_active {
        return Err(ChitFundError::ChitFundActive);
    }
    if !participant.owner.same_as(&user) {
        return Err(ChitFundError::Unauthorized);
    }
    if !participant.has_borrowed {
        return Err(ChitFundError::WithdrawBeforeBorrowing);
    }
    if participant.collateral_withdrawn {
        return Err(ChitFundError::CollateralAlreadyWithdrawn);
    }
    if !asset.same_as(&participant.usdc_address) {
        return Err(ChitFundError::InvalidContributionMint);
    }
    let amount = fund.collateral_requirement;
    if amount > fund.total_contribution_amount || participant.total_contributed < i128::MIN
        + amount as i128 {
        return Err(ChitFundError::AmountOverflow);
    }
    fund.total_contribution_amount = fund.total_contribution_amount - amount;
    participant.total_contributed = participant.total_contributed - amount as i128;
    participant.collateral_withdrawn = true;
    Ok(
        CollateralWithdrawn {
            chit_fund: fund_key,
            participant: participant_key,
            amount,
            withdraw_time: now,
        },
    )
}

} // verus!
