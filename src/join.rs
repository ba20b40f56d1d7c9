use vstd::prelude::*;

use crate::error::ChitFundError;
use crate::state::{roster_position, ChitFund, FundView, Participant, ParticipantView, Pubkey, MAX_CYCLES};

verus! {

/// Notification of a new participant.
#[derive(Clone, Copy, Debug, PartialEq, Eq)]
pub struct ParticipantJoined {
    pub chit_fund: Pubkey,
    pub participant: Pubkey,
    pub owner: Pubkey,
    pub join_time: i64,
    pub collateral_amount: u64,
}

/// The first check an enrollment of `user` fails, if any.
pub open spec fn join_error(f: FundView, user: Pubkey, user_balance: u64) -> Option<ChitFundError> {
    if !f.is_active {
        Some(ChitFundError::ChitFundInactive)
    } else if f.participants_count >= f.max_participants {
        Some(ChitFundError::MaxParticipantsReached)
    } else if f.participants.contains(user) {
        Some(ChitFundError::AlreadyJoined)
    } else if user_balance < f.collateral_requirement {
        Some(ChitFundError::InsufficientCollateral)
    } else if f.total_contribution_amount + f.collateral_requirement > u64::MAX {
        Some(ChitFundError::AmountOverflow)
    } else {
        None
    }
}

/// The fund after `user` is appended to the roster and its collateral pooled.
pub open spec fn fund_after_join(f: FundView, user: Pubkey) -> FundView {
    FundView {
        participants: f.participants.push(user),
        participants_count: (f.participants_count + 1) as u8,
        borrowed_participants: f.borrowed_participants.push(false),
        total_contribution_amount: (f.total_contribution_amount + f.collateral_requirement) as u64,
        ..f
    }
}

/// The record created for `user` on enrollment.
pub open spec fn joined_participant(
    f: FundView,
    user: Pubkey,
    fund_key: Pubkey,
    user_token_account: Pubkey,
    now: i64,
) -> ParticipantView {
    ParticipantView {
        owner: user,
        chit_fund: fund_key,
        usdc_address: user_token_account,
        has_borrowed: false,
        is_emergency_requested: false,
        contributions: Seq::new(MAX_CYCLES as nat, |i: int| false),
        join_time: now,
        last_contribution_time: now,
        total_contributed: f.collateral_requirement as i128,
        borrowed_cycle: None,
        collateral_withdrawn: false,
    }
}

/// Enrolls `user`, whose asset account is `user_token_account` holding
/// `user_balance`, at time `now`. On success the fund's collateral
/// requirement is pooled (the caller transfers it into the collateral pool),
/// `user` takes the next roster slot, and the new participant record is
/// returned with the notification.
pub fn join_chit_fund(
    fund: &mut ChitFund,
    user: Pubkey,
    user_token_account: Pubkey,
    user_balance: u64,
    now: i64,
    fund_key: Pubkey,
    participant_key: Pubkey,
) -> (r: Result<(Participant, ParticipantJoined), ChitFundError>)
    requires
        old(fund).wf(),
    ensures
        final(fund).wf(),
        match r {
            Ok((p, ev)) => {
                &&& join_error(old(fund)@, user, user_balance) is None
                &&& final(fund)@ == fund_after_join(old(fund)@, user)
                &&& p.wf()
                &&& p@ == joined_participant(old(fund)@, user, fund_key, user_token_account, now)
                &&& ev == (ParticipantJoined {
                    chit_fund: fund_key,
                    participant: participant_key,
                    owner: user,
                    join_time: now,
                    collateral_amount: old(fund).collateral_requirement,
                })
            },
            Err(e) => {
                &&& join_error(old(fund)@, user, user_balance) == Some(e)
                &&& final(fund)@ == old(fund)@
            },
        },
{
    if !fund.is_active {
        return Err(ChitFundError::ChitFundInactive);
    }
    if fund.participants_count >= fund.max_participants {
        return Err(ChitFundError::MaxParticipantsReached);
    }
    if roster_position(&fund.participants, &user).is_some() {
        return Err(ChitFundError::AlreadyJoined);
    }
    let collateral = fund.collateral_requirement;
    if user_balance < collateral {
        return Err(ChitFundError::InsufficientCollateral);
    }
    if fund.total_contribution_amount > u64::MAX - collateral {
        return Err(ChitFundError::AmountOverflow);
    }
    let mut contributions: Vec<bool> = Vec::new();
    let mut i: usize = 0;
    while i < MAX_CYCLES as usize
        invariant
            0 <= i <= MAX_CYCLES,
            contributions@ == Seq::new(i as nat, |j: int| false),
        decreases MAX_CYCLES - i,
    {
        contributions.push(false);
        i = i + 1;
        assert(contributions@ =~= Seq::new(i as nat, |j: int| false));
    }
    let ghost old_roster = fund.participants@;
    fund.participants.push(user);
    fund.participants_count = fund.participants_count + 1;
    fund.borrowed_participants.push(false);
    fund.total_contribution_amount = fund.total_contribution_amount + collateral;
    proof {
        assert forall|a: int, b: int|
            0 <= a < b < fund.participants@.len() implies fund.participants@[a]
            != fund.participants@[b] by {
            if b == old_roster.len() {
                assert(old_roster[a] == fund.participants@[a]);
            }
        }
    }
    let participant = Participant {
        owner: user,
        chit_fund: fund_key,
        usdc_address: user_token_account,
        has_borrowed: false,
        is_emergency_requested: false,
        contributions,
        join_time: now,
        last_contribution_time: now,
        total_contributed: collateral as i128,
        borrowed_cycle: None,
        collateral_withdrawn: false,
    };
    let event = ParticipantJoined {
        chit_fund: fund_key,
        participant: participant_key,
        owner: user,
        join_time: now,
        collateral_amount: collateral,
    };
    Ok((participant, event))
}

} // verus!
