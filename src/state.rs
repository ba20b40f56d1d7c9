use vstd::prelude::*;

verus! {

broadcast use vstd::array::group_array_axioms;

/// Largest number of cycles a fund can be configured with.
pub const MAX_CYCLES: u8 = 12;

/// Largest number of participants a fund can be configured with.
pub const MAX_PARTICIPANTS: u8 = 12;

/// Shortest cycle duration, in seconds, a fund can be configured with.
pub const MIN_CYCLE_DURATION: i64 = 60;

/// A 32-byte account identity. The all-zero key stands for "no identity".
#[derive(Clone, Copy, Debug, PartialEq, Eq)]
pub struct Pubkey {
    pub bytes: [u8; 32],
}

impl Pubkey {
    pub open spec fn is_empty_spec(self) -> bool {
        forall|i: int| 0 <= i < 32 ==> self.bytes@[i] == 0
    }

    /// The all-zero key.
    pub fn empty() -> (r: Pubkey)
        ensures
            r.is_empty_spec(),
    {
        Pubkey { bytes: [0u8; 32] }
    }

    /// Whether every byte of the key is zero.
    pub fn is_empty(&self) -> (r: bool)
        ensures
            r == self.is_empty_spec(),
    {
        let mut i: usize = 0;
        while i < 32
            invariant
                0 <= i <= 32,
                forall|j: int| 0 <= j < i ==> self.bytes@[j] == 0,
            decreases 32 - i,
        {
            if self.bytes[i] != 0 {
                return false;
            }
            i = i + 1;
        }
        true
    }

    /// Whether the two keys are the same identity.
    pub fn same_as(&self, other: &Pubkey) -> (r: bool)
        ensures
            r == (*self == *other),
    {
        let mut i: usize = 0;
        while i < 32
            invariant
                0 <= i <= 32,
                forall|j: int| 0 <= j < i ==> self.bytes@[j] == other.bytes@[j],
            decreases 32 - i,
        {
            if self.bytes[i] != other.bytes[i] {
                return false;
            }
            i = i + 1;
        }
        assert(self.bytes =~= other.bytes);
        true
    }
}

/// The record of one fund: configuration, cycle state, roster and pooled total.
#[derive(Clone, Debug)]
pub struct ChitFund {
    pub creator: Pubkey,
    pub mint_address: Pubkey,
    pub contribution_amount: u64,
    pub cycle_duration: i64,
    pub total_cycles: u8,
    pub collateral_requirement: u64,
    pub max_participants: u8,
    pub current_cycle: u8,
    pub is_active: bool,
    pub last_disbursement_time: i64,
    pub participants: Vec<Pubkey>,
    pub participants_count: u8,
    pub borrowed_participants: Vec<bool>,
    pub disbursement_schedule: Vec<u64>,
    pub contribution_vault: Pubkey,
    pub collateral_vault: Pubkey,
    pub total_contribution_amount: u64,
}

/// The mathematical value of a [`ChitFund`].
pub ghost struct FundView {
    pub creator: Pubkey,
    pub mint_address: Pubkey,
    pub contribution_amount: u64,
    pub cycle_duration: i64,
    pub total_cycles: u8,
    pub collateral_requirement: u64,
    pub max_participants: u8,
    pub current_cycle: u8,
    pub is_active: bool,
    pub last_disbursement_time: i64,
    pub participants: Seq<Pubkey>,
    pub participants_count: u8,
    pub borrowed_participants: Seq<bool>,
    pub disbursement_schedule: Seq<u64>,
    pub contribution_vault: Pubkey,
    pub collateral_vault: Pubkey,
    pub total_contribution_amount: u64,
}

impl View for ChitFund {
    type V = FundView;

    open spec fn view(&self) -> FundView {
        FundView {
            creator: self.creator,
            mint_address: self.mint_address,
            contribution_amount: self.contribution_amount,
            cycle_duration: self.cycle_duration,
            total_cycles: self.total_cycles,
            collateral_requirement: self.collateral_requirement,
            max_participants: self.max_participants,
            current_cycle: self.current_cycle,
            is_active: self.is_active,
            last_disbursement_time: self.last_disbursement_time,
            participants: self.participants@,
            participants_count: self.participants_count,
            borrowed_participants: self.borrowed_participants@,
            disbursement_schedule: self.disbursement_schedule@,
            contribution_vault: self.contribution_vault,
            collateral_vault: self.collateral_vault,
            total_contribution_amount: self.total_contribution_amount,
        }
    }
}

impl FundView {
    /// The fund's invariant: a bounded configuration, a cycle index that
    /// never passes the cycle count, activity that ends exactly when the last
    /// cycle is disbursed, and a roster of distinct identities aligned with
    /// its borrowed bitmap.
    pub open spec fn wf(self) -> bool {
        &&& 1 <= self.total_cycles <= MAX_CYCLES
        &&& self.max_participants <= MAX_PARTICIPANTS
        &&& self.cycle_duration >= MIN_CYCLE_DURATION
        &&& self.current_cycle <= self.total_cycles
        &&& (self.is_active <==> self.current_cycle < self.total_cycles)
        &&& self.participants.len() == self.participants_count as nat
        &&& self.participants_count <= self.max_participants
        &&& self.borrowed_participants.len() == self.participants.len()
        &&& self.disbursement_schedule.len() >= self.total_cycles as nat
        &&& self.participants.no_duplicates()
    }

    /// The amount paid out in the current cycle.
    pub open spec fn scheduled_amount(self) -> u64 {
        self.disbursement_schedule[self.current_cycle as int]
    }
}

impl ChitFund {
    pub open spec fn wf(&self) -> bool {
        self@.wf()
    }
}

/// The record of one enrolled identity within a fund. `total_contributed` is
/// the participant's net position in the pool: collateral and contributions
/// paid in, less what it received; it goes below zero once a payout exceeds
/// what the participant has paid in.
#[derive(Clone, Debug)]
pub struct Participant {
    pub owner: Pubkey,
    pub chit_fund: Pubkey,
    pub usdc_address: Pubkey,
    pub has_borrowed: bool,
    pub is_emergency_requested: bool,
    pub contributions: Vec<bool>,
    pub join_time: i64,
    pub last_contribution_time: i64,
    pub total_contributed: i128,
    pub borrowed_cycle: Option<u8>,
    pub collateral_withdrawn: bool,
}

/// The mathematical value of a [`Participant`].
pub ghost struct ParticipantView {
    pub owner: Pubkey,
    pub chit_fund: Pubkey,
    pub usdc_address: Pubkey,
    pub has_borrowed: bool,
    pub is_emergency_requested: bool,
    pub contributions: Seq<bool>,
    pub join_time: i64,
    pub last_contribution_time: i64,
    pub total_contributed: i128,
    pub borrowed_cycle: Option<u8>,
    pub collateral_withdrawn: bool,
}

impl View for Participant {
    type V = ParticipantView;

    open spec fn view(&self) -> ParticipantView {
        ParticipantView {
            owner: self.owner,
            chit_fund: self.chit_fund,
            usdc_address: self.usdc_address,
            has_borrowed: self.has_borrowed,
            is_emergency_requested: self.is_emergency_requested,
            contributions: self.contributions@,
            join_time: self.join_time,
            last_contribution_time: self.last_contribution_time,
            total_contributed: self.total_contributed,
            borrowed_cycle: self.borrowed_cycle,
            collateral_withdrawn: self.collateral_withdrawn,
        }
    }
}

impl ParticipantView {
    /// A participant's invariant: one contribution bit per possible cycle,
    /// a borrowed cycle recorded exactly when it has borrowed, and collateral
    /// released only after borrowing.
    pub open spec fn wf(self) -> bool {
        &&& self.contributions.len() == MAX_CYCLES as nat
        &&& (self.has_borrowed <==> self.borrowed_cycle is Some)
        &&& (self.collateral_withdrawn ==> self.has_borrowed)
    }
}

impl Participant {
    pub open spec fn wf(&self) -> bool {
        self@.wf()
    }
}

/// Position of the first occurrence of `key` in `roster`, if any.
pub fn roster_position(roster: &Vec<Pubkey>, key: &Pubkey) -> (r: Option<usize>)
    ensures
        match r {
            Some(i) => i < roster@.len() && roster@[i as int] == *key && forall|j: int|
                0 <= j < i ==> roster@[j] != *key,
            None => !roster@.contains(*key),
        },
{
    let mut i: usize = 0;
    while i < roster.len()
        invariant
            0 <= i <= roster@.len(),
            forall|j: int| 0 <= j < i ==> roster@[j] != *key,
        decreases roster@.len() - i,
    {
        if roster[i].same_as(key) {
            return Some(i);
        }
        i = i + 1;
    }
    None
}

} // verus!
