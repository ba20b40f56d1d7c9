//! Properties that relate several operations, or one operation over all its
//! inputs, stated over the operations' spec functions and proved.
use vstd::prelude::*;

use crate::contributions::{contribution_error, fund_after_contribution, participant_after_contribution};
use crate::disburse::{
    disburse_error, eligible_borrowers_of, eligible_prefix, fund_after_disbursement,
    lemma_selected_slot_unborrowed, participant_after_disbursement, roster_slot,
    selected_borrower,
};
use crate::error::ChitFundError;
use crate::join::{fund_after_join, join_error, joined_participant};
use crate::state::{FundView, ParticipantView, Pubkey};
use crate::withdraw::{fund_after_withdrawal, participant_after_withdrawal, withdraw_error};

verus! {

/// The fund after enrolling each of `users` in turn.
pub open spec fn fund_after_joins(f: FundView, users: Seq<Pubkey>) -> FundView
    decreases users.len(),
{
    if users.len() == 0 {
        f
    } else {
        fund_after_join(fund_after_joins(f, users.drop_last()), users.last())
    }
}

/// The fund after one disbursement at each of `steps`, a borrower and a time.
pub open spec fn fund_after_disbursements(f: FundView, steps: Seq<(Pubkey, i64)>) -> FundView
    decreases steps.len(),
{
    if steps.len() == 0 {
        f
    } else {
        let g = fund_after_disbursements(f, steps.drop_last());
        fund_after_disbursement(g, steps.last().0, steps.last().1)
    }
}

/// An active fund refuses a new participant exactly when its roster is full;
/// below capacity, a new identity with enough balance is accepted.
pub proof fn lemma_join_capacity(f: FundView, user: Pubkey, user_balance: u64)
    requires
        f.wf(),
        f.is_active,
    ensures
        f.participants_count == f.max_participants ==> join_error(f, user, user_balance) == Some(
            ChitFundError::MaxParticipantsReached,
        ),
        f.participants_count < f.max_participants && !f.participants.contains(user) && user_balance
            >= f.collateral_requirement && f.total_contribution_amount + f.collateral_requirement
            <= u64::MAX ==> join_error(f, user, user_balance) is None,
{
}

/// Starting from an empty roster, enrolling `users` one after another leaves
/// exactly `users` in the roster, in call order, and counts them.
pub proof fn lemma_joins_fill_roster_in_order(f: FundView, users: Seq<Pubkey>)
    requires
        f.wf(),
        f.participants.len() == 0,
        users.len() <= f.max_participants,
    ensures
        fund_after_joins(f, users).participants == users,
        fund_after_joins(f, users).participants_count == users.len(),
    decreases users.len(),
{
    if users.len() > 0 {
        lemma_joins_fill_roster_in_order(f, users.drop_last());
        assert(users.drop_last().push(users.last()) =~= users);
    }
}

/// A contribution for a cycle succeeds at most once: on the records it
/// leaves behind, a second contribution in the same cycle is refused as
/// already made. Each success adds exactly the contribution amount to the
/// pool and to the contributor's total.
pub proof fn lemma_contribution_once(
    f: FundView,
    p: ParticipantView,
    user: Pubkey,
    asset: Pubkey,
    user_balance: u64,
    now: i64,
    next_asset: Pubkey,
    next_balance: u64,
)
    requires
        f.wf(),
        p.wf(),
        contribution_error(f, p, user, asset, user_balance) is None,
    ensures
        contribution_error(
            fund_after_contribution(f),
            participant_after_contribution(f, p, now),
            user,
            next_asset,
            next_balance,
        ) == Some(ChitFundError::ContributionAlreadyMade),
        fund_after_contribution(f).total_contribution_amount == f.total_contribution_amount
            + f.contribution_amount,
        participant_after_contribution(f, p, now).total_contributed == p.total_contributed
            + f.contribution_amount,
{
}

/// Before the cycle's duration has elapsed, a disbursement is refused as
/// premature.
pub proof fn lemma_disburse_before_cycle_end(
    f: FundView,
    p: ParticipantView,
    user: Pubkey,
    asset: Pubkey,
    now: i64,
)
    requires
        f.wf(),
        f.is_active,
        (now as int) < f.last_disbursement_time + f.cycle_duration,
    ensures
        disburse_error(f, p, user, asset, now) == Some(ChitFundError::CycleNotComplete),
{
}

/// With every roster slot already borrowed, no identity is eligible.
proof fn lemma_all_borrowed_none_eligible(f: FundView, n: int)
    requires
        0 <= n <= f.participants.len(),
        forall|i: int| 0 <= i < n ==> f.borrowed_participants[i],
    ensures
        eligible_prefix(f, n).len() == 0,
    decreases n,
{
    if n > 0 {
        lemma_all_borrowed_none_eligible(f, n - 1);
    }
}

/// When every enrolled participant has borrowed, a disbursement that passes
/// the timing and ownership checks is refused for want of eligible borrowers.
pub proof fn lemma_disburse_all_borrowed(
    f: FundView,
    p: ParticipantView,
    user: Pubkey,
    asset: Pubkey,
    now: i64,
)
    requires
        f.wf(),
        f.is_active,
        (now as int) >= f.last_disbursement_time + f.cycle_duration,
        p.owner == user,
        f.participants_count > 0,
        forall|i: int| 0 <= i < f.participants.len() ==> f.borrowed_participants[i],
    ensures
        disburse_error(f, p, user, asset, now) == Some(ChitFundError::NoEligibleBorrowers),
{
    lemma_all_borrowed_none_eligible(f, f.participants.len() as int);
}

/// A successful disbursement advances the cycle by exactly one and flips
/// exactly one roster slot, the borrower's, from not borrowed to borrowed,
/// as it flips the borrower's own flag.
pub proof fn lemma_disbursement_marks_one_borrower(
    f: FundView,
    p: ParticipantView,
    user: Pubkey,
    asset: Pubkey,
    now: i64,
)
    requires
        f.wf(),
        p.wf(),
        disburse_error(f, p, user, asset, now) is None,
    ensures
        fund_after_disbursement(f, p.owner, now).current_cycle == f.current_cycle + 1,
        ({
            let k = roster_slot(f, p.owner);
            &&& 0 <= k < f.participants.len()
            &&& f.participants[k] == p.owner
            &&& !f.borrowed_participants[k]
            &&& fund_after_disbursement(f, p.owner, now).borrowed_participants
                == f.borrowed_participants.update(k, true)
            &&& forall|i: int|
                0 <= i < f.participants.len() && i != k ==> f.participants[i] != p.owner
        }),
        !p.has_borrowed,
        participant_after_disbursement(f, p).has_borrowed,
        fund_after_disbursement(f, p.owner, now).wf(),
{
    lemma_selected_slot_unborrowed(f, now);
    assert(p.owner == selected_borrower(f, now));
    assert(eligible_borrowers_of(f).len() > 0);
}

/// The disbursement of the last cycle closes the fund.
pub proof fn lemma_last_disbursement_closes(f: FundView, borrower: Pubkey, now: i64)
    requires
        f.wf(),
        f.current_cycle + 1 == f.total_cycles,
    ensures
        !fund_after_disbursement(f, borrower, now).is_active,
{
}

/// Each disbursement advances the cycle by one, and the fund is active after
/// one exactly while cycles remain.
pub proof fn lemma_disbursements_advance(f: FundView, steps: Seq<(Pubkey, i64)>)
    requires
        f.current_cycle + steps.len() <= f.total_cycles,
    ensures
        fund_after_disbursements(f, steps).current_cycle == f.current_cycle + steps.len(),
        fund_after_disbursements(f, steps).total_cycles == f.total_cycles,
        steps.len() > 0 ==> (fund_after_disbursements(f, steps).is_active
            <==> fund_after_disbursements(f, steps).current_cycle < f.total_cycles),
    decreases steps.len(),
{
    if steps.len() > 0 {
        lemma_disbursements_advance(f, steps.drop_last());
    }
}

/// After as many disbursements as the fund has cycles, starting from its
/// first cycle, the fund is inactive.
pub proof fn lemma_all_cycles_close_fund(f: FundView, steps: Seq<(Pubkey, i64)>)
    requires
        f.wf(),
        f.current_cycle == 0,
        steps.len() == f.total_cycles,
    ensures
        !fund_after_disbursements(f, steps).is_active,
{
    lemma_disbursements_advance(f, steps);
}

/// An inactive fund stays inactive: enrollment, contribution and
/// disbursement are refused, and a collateral release leaves it inactive.
pub proof fn lemma_inactive_is_terminal(
    f: FundView,
    p: ParticipantView,
    user: Pubkey,
    asset: Pubkey,
    user_balance: u64,
    now: i64,
)
    requires
        f.wf(),
        !f.is_active,
    ensures
        join_error(f, user, user_balance) == Some(ChitFundError::ChitFundInactive),
        contribution_error(f, p, user, asset, user_balance) == Some(
            ChitFundError::ChitFundInactive,
        ),
        disburse_error(f, p, user, asset, now) == Some(ChitFundError::ChitFundInactive),
        !fund_after_withdrawal(f).is_active,
        fund_after_withdrawal(f).wf(),
{
}

/// Collateral is refused while the fund is active, whatever the borrow
/// status, and refused to a participant that never borrowed.
pub proof fn lemma_withdraw_requires_conclusion(
    f: FundView,
    p: ParticipantView,
    user: Pubkey,
    asset: Pubkey,
)
    requires
        f.wf(),
        p.wf(),
    ensures
        f.is_active ==> withdraw_error(f, p, user, asset) == Some(ChitFundError::ChitFundActive),
        !f.is_active && p.owner == user && !p.has_borrowed ==> withdraw_error(f, p, user, asset)
            == Some(ChitFundError::WithdrawBeforeBorrowing),
{
}

/// A collateral release succeeds at most once per participant, and takes
/// exactly the collateral requirement out of the pool.
pub proof fn lemma_withdraw_once(
    f: FundView,
    p: ParticipantView,
    user: Pubkey,
    asset: Pubkey,
    next_asset: Pubkey,
)
    requires
        f.wf(),
        p.wf(),
        withdraw_error(f, p, user, asset) is None,
    ensures
        withdraw_error(fund_after_withdrawal(f), participant_after_withdrawal(f, p), user, next_asset)
            == Some(ChitFundError::CollateralAlreadyWithdrawn),
        fund_after_withdrawal(f).total_contribution_amount == f.total_contribution_amount
            - f.collateral_requirement,
{
}

/// The pool moves in step with the participants' net positions: each
/// successful operation changes the fund's pooled total by exactly as much as
/// it changes the net position of the participant it concerns, and enrollment
/// opens a position equal to the collateral it pools.
pub proof fn lemma_pool_tracks_net_positions(
    f: FundView,
    p: ParticipantView,
    user: Pubkey,
    asset: Pubkey,
    user_balance: u64,
    now: i64,
    fund_key: Pubkey,
)
    requires
        f.wf(),
        p.wf(),
    ensures
        join_error(f, user, user_balance) is None ==> fund_after_join(f, user).total_contribution_amount
            - f.total_contribution_amount == joined_participant(
            f,
            user,
            fund_key,
            asset,
            now,
        ).total_contributed,
        contribution_error(f, p, user, asset, user_balance) is None ==> fund_after_contribution(
            f,
        ).total_contribution_amount - f.total_contribution_amount
            == participant_after_contribution(f, p, now).total_contributed - p.total_contributed,
        disburse_error(f, p, user, asset, now) is None ==> fund_after_disbursement(
            f,
            p.owner,
            now,
        ).total_contribution_amount - f.total_contribution_amount
            == participant_after_disbursement(f, p).total_contributed - p.total_contributed,
        withdraw_error(f, p, user, asset) is None ==> fund_after_withdrawal(
            f,
        ).total_contribution_amount - f.total_contribution_amount
            == participant_after_withdrawal(f, p).total_contributed - p.total_contributed,
{
}

} // verus!
