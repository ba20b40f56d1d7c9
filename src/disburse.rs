use vstd::prelude::*;

use crate::error::ChitFundError;
use crate::state::{roster_position, ChitFund, FundView, Participant, ParticipantView, Pubkey};

verus! {

/// Notification of one cycle's payout.
#[derive(Clone, Copy, Debug, PartialEq, Eq)]
pub struct FundsDisbursed {
    pub chit_fund: Pubkey,
    pub participant: Pubkey,
    pub amount: u64,
    pub cycle: u8,
    pub disbursement_time: i64,
}

/// The identities among the first `n` roster slots that are non-empty and
/// have not borrowed, in roster order.
pub open spec fn eligible_prefix(f: FundView, n: int) -> Seq<Pubkey>
    decreases n,
{
    if n <= 0 {
        Seq::empty()
    } else {
        let prev = eligible_prefix(f, n - 1);
        let key = f.participants[n - 1];
        if !key.is_empty_spec() && !f.borrowed_participants[n - 1] {
            prev.push(key)
        } else {
            prev
        }
    }
}

/// Every enrolled identity that may still receive a disbursement, in roster order.
pub open spec fn eligible_borrowers_of(f: FundView) -> Seq<Pubkey> {
    eligible_prefix(f, f.participants.len() as int)
}

/// The borrower picked at time `now`: the eligible identity at position
/// `now mod (number of eligible identities)`, the time read as an unsigned word.
pub open spec fn selected_borrower(f: FundView, now: i64) -> Pubkey {
    let e = eligible_borrowers_of(f);
    e[(now as u64) as int % e.len() as int]
}

/// The roster slot holding `key`.
pub open spec fn roster_slot(f: FundView, key: Pubkey) -> int {
    choose|i: int| 0 <= i < f.participants.len() && f.participants[i] == key
}

/// The first check a disbursement fails, if any.
pub open spec fn disburse_error(
    f: FundView,
    p: ParticipantView,
    user: Pubkey,
    asset: Pubkey,
    now: i64,
) -> Option<ChitFundError> {
    if !f.is_active {
        Some(ChitFundError::ChitFundInactive)
    } else if (now as int) < f.last_disbursement_time + f.cycle_duration {
        Some(ChitFundError::CycleNotComplete)
    } else if p.owner != user {
        Some(ChitFundError::Unauthorized)
    } else if f.participants_count == 0 {
        Some(ChitFundError::ParticipantNotFound)
    } else if eligible_borrowers_of(f).len() == 0 {
        Some(ChitFundError::NoEligibleBorrowers)
    } else if p.owner != selected_borrower(f, now) {
        Some(ChitFundError::InvalidBorrowerAccount)
    } else if p.has_borrowed {
        Some(ChitFundError::AlreadyBorrowed)
    } else if asset != p.usdc_address {
        Some(ChitFundError::InvalidContributionMint)
    } else if f.scheduled_amount() > f.total_contribution_amount {
        Some(ChitFundError::InvalidDisbursementTotal)
    } else if p.total_contributed - f.scheduled_amount() < i128::MIN {
        Some(ChitFundError::AmountOverflow)
    } else {
        None
    }
}

/// The fund after paying the current cycle's amount to `borrower` at time `now`.
pub open spec fn fund_after_disbursement(f: FundView, borrower: Pubkey, now: i64) -> FundView {
    FundView {
        borrowed_participants: f.borrowed_participants.update(roster_slot(f, borrower), true),
        current_cycle: (f.current_cycle + 1) as u8,
        is_active: f.current_cycle + 1 < f.total_cycles,
        last_disbursement_time: now,
        total_contribution_amount: (f.total_contribution_amount - f.scheduled_amount()) as u64,
        ..f
    }
}

/// The borrower's record after receiving the current cycle's amount.
pub open spec fn participant_after_disbursement(f: FundView, p: ParticipantView) -> ParticipantView {
    ParticipantView {
        has_borrowed: true,
        borrowed_cycle: Some(f.current_cycle),
        total_contributed: (p.total_contributed - f.scheduled_amount()) as i128,
        ..p
    }
}

/// Each eligible identity sits at a roster slot whose borrowed bit is clear.
pub proof fn lemma_eligible_in_roster(f: FundView, n: int)
    requires
        0 <= n <= f.participants.len(),
        f.borrowed_participants.len() == f.participants.len(),
    ensures
        forall|j: int|
            0 <= j < eligible_prefix(f, n).len() ==> exists|i: int|
                0 <= i < n && f.participants[i] == #[trigger] eligible_prefix(f, n)[j]
                    && !f.borrowed_participants[i],
    decreases n,
{
    if n > 0 {
        lemma_eligible_in_roster(f, n - 1);
        let prev = eligible_prefix(f, n - 1);
        let cur = eligible_prefix(f, n);
        assert forall|j: int| 0 <= j < cur.len() implies exists|i: int|
            0 <= i < n && f.participants[i] == #[trigger] cur[j] && !f.borrowed_participants[i] by {
            if j < prev.len() {
                assert(cur[j] == prev[j]);
                let i = choose|i: int|
                    0 <= i < n - 1 && f.participants[i] == #[trigger] prev[j]
                        && !f.borrowed_participants[i];
                assert(0 <= i < n && f.participants[i] == cur[j]);
            } else {
                assert(f.participants[n - 1] == cur[j]);
            }
        }
    }
}

/// The selected borrower's roster slot has its borrowed bit clear.
pub proof fn lemma_selected_slot_unborrowed(f: FundView, now: i64)
    requires
        f.wf(),
        eligible_borrowers_of(f).len() > 0,
    ensures
        0 <= roster_slot(f, selected_borrower(f, now)) < f.participants.len(),
        f.participants[roster_slot(f, selected_borrower(f, now))] == selected_borrower(f, now),
        !f.borrowed_participants[roster_slot(f, selected_borrower(f, now))],
{
    let e = eligible_borrowers_of(f);
    let j = (now as u64) as int % e.len() as int;
    lemma_eligible_in_roster(f, f.participants.len() as int);
    assert(0 <= j < e.len());
    let i = choose|i: int|
        0 <= i < f.participants.len() && f.participants[i] == #[trigger] e[j]
            && !f.borrowed_participants[i];
    let s = roster_slot(f, e[j]);
    assert(0 <= s < f.participants.len() && f.participants[s] == e[j]);
    assert(s == i);
}

/// The eligible borrowers of `fund`, in roster order.
pub fn eligible_borrowers(fund: &ChitFund) -> (r: Vec<Pubkey>)
    requires
        fund.wf(),
    ensures
        r@ == eligible_borrowers_of(fund@),
{
    let mut r: Vec<Pubkey> = Vec::new();
    let n = fund.participants.len();
    let mut i: usize = 0;
    while i < n
        invariant
            0 <= i <= n,
            n == fund.participants@.len(),
            fund.borrowed_participants@.len() == n,
            r@ == eligible_prefix(fund@, i as int),
        decreases n - i,
    {
        let key = fund.participants[i];
        if !key.is_empty() && !fund.borrowed_participants[i] {
            r.push(key);
        }
        i = i + 1;
    }
    r
}

/// Pays the current cycle's scheduled amount to the borrower selected at
/// time `now`, who must be the owner of `participant` and the caller `user`.
/// On success the borrower is marked as having borrowed, in the roster and in
/// its own record, the cycle advances by one, and the fund closes after its
/// last cycle. The payout itself is the caller's transfer of the returned
/// amount from the contribution pool to the borrower's account `asset`.
pub fn disburse_funds(
    fund: &mut ChitFund,
    participant: &mut Participant,
    user: Pubkey,
    asset: Pubkey,
    now: i64,
    fund_key: Pubkey,
    participant_key: Pubkey,
) -> (r: Result<FundsDisbursed, ChitFundError>)
    requires
        old(fund).wf(),
        old(participant).wf(),
    ensures
        final(fund).wf(),
        final(participant).wf(),
        match r {
            Ok(ev) => {
                &&& disburse_error(old(fund)@, old(participant)@, user, asset, now) is None
                &&& final(fund)@ == fund_after_disbursement(old(fund)@, old(participant).owner, now)
                &&& final(participant)@ == participant_after_disbursement(
                    old(fund)@,
                    old(participant)@,
                )
                &&& ev == (FundsDisbursed {
                    chit_fund: fund_key,
                    participant: participant_key,
                    amount: old(fund)@.scheduled_amount(),
                    cycle: old(fund).current_cycle,
                    disbursement_time: now,
                })
            },
            Err(e) => {
                &&& disburse_error(old(fund)@, old(participant)@, user, asset, now) == Some(e)
                &&& final(fund)@ == old(fund)@
                &&& final(participant)@ == old(participant)@
            },
        },
{
    let ghost f0 = fund@;
    if !fund.is_active {
        return Err(ChitFundError::ChitFundInactive);
    }
    if (now as i128) < (fund.last_disbursement_time as i128) + (fund.cycle_duration as i128) {
        return Err(ChitFundError::CycleNotComplete);
    }
    if !participant.owner.same_as(&user) {
        return Err(ChitFundError::Unauthorized);
    }
    if fund.participants_count == 0 {
        return Err(ChitFundError::ParticipantNotFound);
    }
    let eligible = eligible_borrowers(fund);
    if eligible.len() == 0 {
        return Err(ChitFundError::NoEligibleBorrowers);
    }
    let index = ((now as u64) % (eligible.len() as u64)) as usize;
    let selected = eligible[index];
    if !participant.owner.same_as(&selected) {
        return Err(ChitFundError::InvalidBorrowerAccount);
    }
    if participant.has_borrowed {
        return Err(ChitFundError::AlreadyBorrowed);
    }
    if !asset.same_as(&participant.usdc_address) {
        return Err(ChitFundError::InvalidContributionMint);
    }
    let cycle = fund.current_cycle;
    let amount = fund.disbursement_schedule[cycle as usize];
    if amount > fund.total_contribution_amount {
        return Err(ChitFundError::InvalidDisbursementTotal);
    }
    if participant.total_contributed < i128::MIN + amount as i128 {
        return Err(ChitFundError::AmountOverflow);
    }
    proof {
        lemma_selected_slot_unborrowed(f0, now);
    }
    let slot = roster_position(&fund.participants, &selected);
    let k = slot.unwrap();
    proof {
        assert(k as int == roster_slot(f0, selected));
    }
    fund.borrowed_participants.set(k, true);
    participant.has_borrowed = true;
    participant.borrowed_cycle = Some(cycle);
    fund.current_cycle = cycle + 1;
    fund.last_disbursement_time = now;
    if fund.current_cycle == fund.total_cycles {
        fund.is_active = false;
    }
    fund.total_contribution_amount = fund.total_contribution_amount - amount;
    participant.total_contributed = participant.total_contributed - amount as i128;
    Ok(
        FundsDisbursed {
            chit_fund: fund_key,
            participant: participant_key,
            amount,
            cycle,
            disbursement_time: now,
        },
    )
}

} // verus!
