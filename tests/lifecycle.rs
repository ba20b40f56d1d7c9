use rosca::admin::initialize_chit_fund;
use rosca::contributions::make_contribution;
use rosca::disburse::{disburse_funds, eligible_borrowers};
use rosca::error::ChitFundError;
use rosca::join::join_chit_fund;
use rosca::state::{roster_position, ChitFund, Participant, Pubkey, MAX_CYCLES};
use rosca::withdraw::withdraw_collateral;

const START: i64 = 1000;

fn key(n: u8) -> Pubkey {
    Pubkey { bytes: [n; 32] }
}

fn account(n: u8) -> Pubkey {
    key(100 + n)
}

fn fund_key() -> Pubkey {
    key(200)
}

fn new_fund(max_participants: u8, total_cycles: u8, schedule: Vec<u64>) -> ChitFund {
    initialize_chit_fund(
        key(201),
        key(202),
        key(203),
        key(204),
        100,
        60,
        total_cycles,
        50,
        max_participants,
        schedule,
        START,
        fund_key(),
    )
    .unwrap()
    .0
}

fn join(fund: &mut ChitFund, n: u8) -> Participant {
    join_chit_fund(fund, key(n), account(n), 1_000, START, fund_key(), key(50 + n))
        .unwrap()
        .0
}

fn contribute(fund: &mut ChitFund, p: &mut Participant, n: u8) -> Result<(), ChitFundError> {
    make_contribution(fund, p, key(n), account(n), 1_000, START + 1, fund_key(), key(50 + n))
        .map(|_| ())
}

fn disburse(fund: &mut ChitFund, p: &mut Participant, n: u8, now: i64) -> Result<u64, ChitFundError> {
    disburse_funds(fund, p, key(n), account(n), now, fund_key(), key(50 + n)).map(|ev| ev.amount)
}

fn withdraw(fund: &mut ChitFund, p: &mut Participant, n: u8) -> Result<u64, ChitFundError> {
    withdraw_collateral(fund, p, key(n), account(n), 5_000, fund_key(), key(50 + n))
        .map(|ev| ev.amount)
}

#[test]
fn initialize_starts_fresh() {
    let (fund, ev) = initialize_chit_fund(
        key(201),
        key(202),
        key(203),
        key(204),
        100,
        60,
        3,
        50,
        3,
        vec![10, 20, 30],
        START,
        fund_key(),
    )
    .unwrap();
    assert_eq!(fund.current_cycle, 0);
    assert!(fund.is_active);
    assert!(fund.participants.is_empty());
    assert_eq!(fund.participants_count, 0);
    assert!(fund.borrowed_participants.is_empty());
    assert_eq!(fund.total_contribution_amount, 0);
    assert_eq!(fund.last_disbursement_time, START);
    assert_eq!(fund.disbursement_schedule, vec![10, 20, 30]);
    assert_eq!(fund.creator, key(201));
    assert_eq!(fund.mint_address, key(202));
    assert_eq!(fund.contribution_vault, key(203));
    assert_eq!(fund.collateral_vault, key(204));
    assert_eq!(ev.chit_fund, fund_key());
    assert_eq!(ev.creator, key(201));
    assert_eq!(ev.contribution_amount, 100);
    assert_eq!(ev.total_cycles, 3);
    assert_eq!(ev.max_participants, 3);
    assert_eq!(ev.mint_address, key(202));
}

#[test]
fn initialize_accepts_the_largest_configuration() {
    let fund = new_fund(12, MAX_CYCLES, vec![1; 12]);
    assert_eq!(fund.total_cycles, 12);
    assert_eq!(fund.max_participants, 12);
}

#[test]
fn initialize_rejects_bad_configuration() {
    let init = |duration: i64, cycles: u8, max: u8, schedule: Vec<u64>| {
        initialize_chit_fund(
            key(201), key(202), key(203), key(204), 100, duration, cycles, 50, max, schedule, START,
            fund_key(),
        )
        .map(|_| ())
    };
    assert_eq!(init(60, 13, 3, vec![1; 13]), Err(ChitFundError::ExceedsMaximumCycles));
    assert_eq!(init(60, 0, 3, vec![]), Err(ChitFundError::InvalidCycle));
    assert_eq!(init(59, 3, 3, vec![1; 3]), Err(ChitFundError::InvalidCycleDuration));
    assert_eq!(init(60, 3, 13, vec![1; 3]), Err(ChitFundError::ExceedsMaximumParticipants));
    assert_eq!(init(60, 3, 3, vec![1; 2]), Err(ChitFundError::InvalidDisbursementSchedule));
}

#[test]
fn join_fills_roster_in_call_order() {
    let mut fund = new_fund(3, 3, vec![100; 3]);
    let (p, ev) =
        join_chit_fund(&mut fund, key(1), account(1), 50, START + 5, fund_key(), key(51)).unwrap();
    assert_eq!(p.owner, key(1));
    assert_eq!(p.chit_fund, fund_key());
    assert_eq!(p.usdc_address, account(1));
    assert!(!p.has_borrowed);
    assert_eq!(p.contributions, vec![false; 12]);
    assert_eq!(p.join_time, START + 5);
    assert_eq!(p.total_contributed, 50);
    assert_eq!(p.borrowed_cycle, None);
    assert_eq!(ev.owner, key(1));
    assert_eq!(ev.participant, key(51));
    assert_eq!(ev.collateral_amount, 50);
    join(&mut fund, 2);
    join(&mut fund, 3);
    assert_eq!(fund.participants_count, 3);
    assert_eq!(fund.participants, vec![key(1), key(2), key(3)]);
    assert_eq!(fund.borrowed_participants, vec![false; 3]);
    assert_eq!(fund.total_contribution_amount, 150);
    let before = fund.clone();
    let r = join_chit_fund(&mut fund, key(4), account(4), 1_000, START, fund_key(), key(54));
    assert_eq!(r.map(|_| ()), Err(ChitFundError::MaxParticipantsReached));
    assert_eq!(fund.participants, before.participants);
    assert_eq!(fund.participants_count, 3);
    assert_eq!(fund.total_contribution_amount, 150);
}

#[test]
fn join_rejections() {
    let mut fund = new_fund(3, 3, vec![100; 3]);
    join(&mut fund, 1);
    let r = join_chit_fund(&mut fund, key(1), account(1), 1_000, START, fund_key(), key(51));
    assert_eq!(r.map(|_| ()), Err(ChitFundError::AlreadyJoined));
    let r = join_chit_fund(&mut fund, key(2), account(2), 49, START, fund_key(), key(52));
    assert_eq!(r.map(|_| ()), Err(ChitFundError::InsufficientCollateral));
    fund.total_contribution_amount = u64::MAX - 10;
    let r = join_chit_fund(&mut fund, key(2), account(2), 1_000, START, fund_key(), key(52));
    assert_eq!(r.map(|_| ()), Err(ChitFundError::AmountOverflow));
    assert_eq!(fund.participants_count, 1);
    let mut closed = new_fund(3, 1, vec![100]);
    closed.current_cycle = 1;
    closed.is_active = false;
    let r = join_chit_fund(&mut closed, key(2), account(2), 1_000, START, fund_key(), key(52));
    assert_eq!(r.map(|_| ()), Err(ChitFundError::ChitFundInactive));
}

#[test]
fn contribution_succeeds_once_per_cycle() {
    let mut fund = new_fund(3, 3, vec![100; 3]);
    let mut p = join(&mut fund, 1);
    let ev = make_contribution(&mut fund, &mut p, key(1), account(1), 100, START + 7, fund_key(), key(51))
        .unwrap();
    assert_eq!(ev.cycle, 0);
    assert_eq!(ev.amount, 100);
    assert_eq!(ev.contribution_time, START + 7);
    assert_eq!(fund.total_contribution_amount, 150);
    assert_eq!(p.total_contributed, 150);
    assert!(p.contributions[0]);
    assert_eq!(p.last_contribution_time, START + 7);
    assert_eq!(contribute(&mut fund, &mut p, 1), Err(ChitFundError::ContributionAlreadyMade));
    assert_eq!(fund.total_contribution_amount, 150);
    assert_eq!(p.total_contributed, 150);
}

#[test]
fn contribution_rejections() {
    let mut fund = new_fund(3, 3, vec![100; 3]);
    let mut p = join(&mut fund, 1);
    let r = make_contribution(&mut fund, &mut p, key(2), account(1), 1_000, START, fund_key(), key(51));
    assert_eq!(r.map(|_| ()), Err(ChitFundError::Unauthorized));
    let r = make_contribution(&mut fund, &mut p, key(1), account(1), 99, START, fund_key(), key(51));
    assert_eq!(r.map(|_| ()), Err(ChitFundError::InsufficientFunds));
    let r = make_contribution(&mut fund, &mut p, key(1), key(202), 1_000, START, fund_key(), key(51));
    assert_eq!(r.map(|_| ()), Err(ChitFundError::InvalidContributionMint));
    fund.total_contribution_amount = u64::MAX - 1;
    assert_eq!(contribute(&mut fund, &mut p, 1), Err(ChitFundError::AmountOverflow));
    assert!(!p.contributions[0]);
    fund.current_cycle = 3;
    fund.is_active = false;
    assert_eq!(contribute(&mut fund, &mut p, 1), Err(ChitFundError::ChitFundInactive));
}

#[test]
fn eligible_borrowers_skip_empty_and_borrowed_slots() {
    let mut fund = new_fund(4, 3, vec![100; 3]);
    join(&mut fund, 1);
    join(&mut fund, 2);
    join_chit_fund(&mut fund, key(0), account(0), 1_000, START, fund_key(), key(50)).unwrap();
    join(&mut fund, 3);
    fund.borrowed_participants[1] = true;
    assert_eq!(eligible_borrowers(&fund), vec![key(1), key(3)]);
    assert_eq!(roster_position(&fund.participants, &key(3)), Some(3));
    assert_eq!(roster_position(&fund.participants, &key(9)), None);
    assert!(key(0).is_empty());
    assert!(Pubkey::empty().same_as(&key(0)));
    assert!(!key(1).same_as(&key(2)));
}

#[test]
fn disbursement_selects_by_time_and_marks_one_borrower() {
    let mut fund = new_fund(3, 3, vec![120, 110, 100]);
    let mut p1 = join(&mut fund, 1);
    let mut p2 = join(&mut fund, 2);
    join(&mut fund, 3);
    // 1061 mod 3 == 2 selects the third participant, so the second is refused.
    assert_eq!(disburse(&mut fund, &mut p2, 2, START + 61), Err(ChitFundError::InvalidBorrowerAccount));
    // 1060 mod 3 == 1 selects the second participant.
    let ev = disburse_funds(&mut fund, &mut p2, key(2), account(2), START + 60, fund_key(), key(52))
        .unwrap();
    assert_eq!(ev.amount, 120);
    assert_eq!(ev.cycle, 0);
    assert_eq!(ev.disbursement_time, START + 60);
    assert_eq!(ev.participant, key(52));
    assert_eq!(fund.current_cycle, 1);
    assert!(fund.is_active);
    assert_eq!(fund.last_disbursement_time, START + 60);
    assert_eq!(fund.borrowed_participants, vec![false, true, false]);
    assert_eq!(fund.total_contribution_amount, 30);
    assert!(p2.has_borrowed);
    assert_eq!(p2.borrowed_cycle, Some(0));
    assert_eq!(p2.total_contributed, -70);
    assert_eq!(disburse(&mut fund, &mut p1, 1, START + 119), Err(ChitFundError::CycleNotComplete));
    assert_eq!(disburse(&mut fund, &mut p2, 2, START + 120), Err(ChitFundError::InvalidBorrowerAccount));
}

#[test]
fn disbursement_rejections() {
    let mut empty = new_fund(3, 3, vec![100; 3]);
    let mut stranger = join(&mut new_fund(3, 3, vec![100; 3]), 1);
    assert_eq!(disburse(&mut empty, &mut stranger, 1, START + 60), Err(ChitFundError::ParticipantNotFound));
    assert_eq!(disburse(&mut empty, &mut stranger, 2, START + 60), Err(ChitFundError::Unauthorized));
    assert_eq!(disburse(&mut empty, &mut stranger, 1, START + 59), Err(ChitFundError::CycleNotComplete));

    let mut fund = new_fund(3, 3, vec![100; 3]);
    let mut p1 = join(&mut fund, 1);
    fund.borrowed_participants[0] = true;
    assert_eq!(disburse(&mut fund, &mut p1, 1, START + 60), Err(ChitFundError::NoEligibleBorrowers));
    fund.borrowed_participants[0] = false;
    p1.has_borrowed = true;
    p1.borrowed_cycle = Some(0);
    assert_eq!(disburse(&mut fund, &mut p1, 1, START + 60), Err(ChitFundError::AlreadyBorrowed));
    p1.has_borrowed = false;
    p1.borrowed_cycle = None;
    let r = disburse_funds(&mut fund, &mut p1, key(1), key(202), START + 60, fund_key(), key(51));
    assert_eq!(r.map(|_| ()), Err(ChitFundError::InvalidContributionMint));

    let mut short = new_fund(3, 3, vec![51, 1, 1]);
    let mut q = join(&mut short, 1);
    assert_eq!(disburse(&mut short, &mut q, 1, START + 60), Err(ChitFundError::InvalidDisbursementTotal));
    assert_eq!(short.current_cycle, 0);
    assert_eq!(short.total_contribution_amount, 50);
}

#[test]
fn fund_closes_after_last_cycle_and_stays_closed() {
    let mut fund = new_fund(2, 2, vec![25, 25]);
    let mut p1 = join(&mut fund, 1);
    let mut p2 = join(&mut fund, 2);
    // 1060 mod 2 == 0 selects the first participant.
    assert_eq!(disburse(&mut fund, &mut p1, 1, START + 60), Ok(25));
    assert!(fund.is_active);
    assert_eq!(disburse(&mut fund, &mut p2, 2, START + 120), Ok(25));
    assert_eq!(fund.current_cycle, 2);
    assert!(!fund.is_active);
    assert_eq!(disburse(&mut fund, &mut p2, 2, START + 1_000), Err(ChitFundError::ChitFundInactive));
    assert_eq!(contribute(&mut fund, &mut p1, 1), Err(ChitFundError::ChitFundInactive));
    let r = join_chit_fund(&mut fund, key(3), account(3), 1_000, START, fund_key(), key(53));
    assert_eq!(r.map(|_| ()), Err(ChitFundError::ChitFundInactive));
    assert_eq!(withdraw(&mut fund, &mut p1, 1), Ok(50));
    assert!(!fund.is_active);
}

#[test]
fn withdrawal_rules() {
    let mut fund = new_fund(3, 1, vec![50]);
    let mut p1 = join(&mut fund, 1);
    let mut p2 = join(&mut fund, 2);
    assert_eq!(withdraw(&mut fund, &mut p1, 1), Err(ChitFundError::ChitFundActive));
    // 1060 mod 2 == 0 selects the first participant.
    assert_eq!(disburse(&mut fund, &mut p1, 1, START + 60), Ok(50));
    assert!(!fund.is_active);
    assert_eq!(withdraw(&mut fund, &mut p2, 2), Err(ChitFundError::WithdrawBeforeBorrowing));
    assert_eq!(withdraw(&mut fund, &mut p1, 2), Err(ChitFundError::Unauthorized));
    let r = withdraw_collateral(&mut fund, &mut p1, key(1), key(202), START, fund_key(), key(51));
    assert_eq!(r.map(|_| ()), Err(ChitFundError::InvalidContributionMint));
    let ev = withdraw_collateral(&mut fund, &mut p1, key(1), account(1), 7_000, fund_key(), key(51))
        .unwrap();
    assert_eq!(ev.amount, 50);
    assert_eq!(ev.withdraw_time, 7_000);
    assert_eq!(fund.total_contribution_amount, 0);
    assert_eq!(p1.total_contributed, -50);
    assert!(p1.collateral_withdrawn);
    assert_eq!(withdraw(&mut fund, &mut p1, 1), Err(ChitFundError::CollateralAlreadyWithdrawn));
    assert_eq!(fund.total_contribution_amount, 0);
}

#[test]
fn withdrawal_beyond_pool_is_rejected() {
    let mut fund = new_fund(3, 1, vec![100]);
    let mut p1 = join(&mut fund, 1);
    assert_eq!(disburse(&mut fund, &mut p1, 1, START + 60), Err(ChitFundError::InvalidDisbursementTotal));
    fund.disbursement_schedule[0] = 10;
    assert_eq!(disburse(&mut fund, &mut p1, 1, START + 60), Ok(10));
    fund.total_contribution_amount = 49;
    assert_eq!(withdraw(&mut fund, &mut p1, 1), Err(ChitFundError::AmountOverflow));
}

#[test]
fn three_member_fund_runs_to_completion() {
    let schedule: Vec<u64> = vec![150, 100, 50];
    let mut fund = new_fund(3, 3, schedule.clone());
    let mut p: Vec<Participant> = vec![join(&mut fund, 1), join(&mut fund, 2), join(&mut fund, 3)];
    assert_eq!(fund.total_contribution_amount, 150);
    for (i, participant) in p.iter_mut().enumerate() {
        contribute(&mut fund, participant, i as u8 + 1).unwrap();
    }
    assert_eq!(fund.total_contribution_amount, 450);

    // 1062 mod 3 == 0: the first participant.
    assert_eq!(disburse(&mut fund, &mut p[0], 1, START + 62), Ok(schedule[0]));
    assert_eq!(fund.total_contribution_amount, 450 - schedule[0]);
    assert_eq!(fund.current_cycle, 1);
    // 1122 mod 2 == 0: the second participant, first of those left.
    assert_eq!(disburse(&mut fund, &mut p[1], 2, START + 122), Ok(schedule[1]));
    assert_eq!(fund.current_cycle, 2);
    assert!(fund.is_active);
    assert_eq!(disburse(&mut fund, &mut p[2], 3, START + 182), Ok(schedule[2]));
    assert_eq!(fund.current_cycle, 3);
    assert!(!fund.is_active);
    assert_eq!(fund.borrowed_participants, vec![true; 3]);

    for (i, participant) in p.iter_mut().enumerate() {
        assert_eq!(withdraw(&mut fund, participant, i as u8 + 1), Ok(50));
    }
    assert_eq!(
        fund.total_contribution_amount,
        450 - schedule[0] - schedule[1] - schedule[2] - 150
    );
}

#[test]
fn pool_equals_sum_of_net_positions() {
    let mut fund = new_fund(3, 3, vec![150, 100, 50]);
    let mut p: Vec<Participant> = vec![join(&mut fund, 1), join(&mut fund, 2), join(&mut fund, 3)];
    let net = |p: &Vec<Participant>| p.iter().map(|q| q.total_contributed).sum::<i128>();
    assert_eq!(net(&p), fund.total_contribution_amount as i128);
    for (i, participant) in p.iter_mut().enumerate() {
        contribute(&mut fund, participant, i as u8 + 1).unwrap();
    }
    assert_eq!(net(&p), 450);
    disburse(&mut fund, &mut p[0], 1, START + 62).unwrap();
    disburse(&mut fund, &mut p[1], 2, START + 122).unwrap();
    disburse(&mut fund, &mut p[2], 3, START + 182).unwrap();
    assert_eq!(net(&p), 150);
    assert_eq!(fund.total_contribution_amount, 150);
    withdraw(&mut fund, &mut p[0], 1).unwrap();
    assert_eq!(p[0].total_contributed, -50);
    assert_eq!(net(&p), fund.total_contribution_amount as i128);
}

#[test]
fn error_messages() {
    assert_eq!(ChitFundError::CycleNotComplete.message(), "The cycle is not yet complete.");
    assert_eq!(ChitFundError::NoEligibleBorrowers.message(), "No eligible borrowers found in this cycle");
}
