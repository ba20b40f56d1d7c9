use vstd::prelude::*;

verus! {

/// Every way an operation on a fund can be rejected.
#[derive(Clone, Copy, Debug, PartialEq, Eq, Structural)]
pub enum ChitFundError {
    MaxParticipantsReached,
    InsufficientCollateral,
    ContributionAlreadyMade,
    PendingContributions,
    ParticipantNotFound,
    InvalidBorrowerAccount,
    ChitFundInactive,
    ChitFundActive,
    CycleNotComplete,
    InvalidCollateralMint,
    InvalidCollateralVaultOwner,
    InvalidContributionMint,
    InvalidContributionVaultOwner,
    ExceedsMaximumCycles,
    InvalidCycle,
    AlreadyBorrowed,
    Unauthorized,
    InvalidDisbursementSchedule,
    ExceedsMaximumParticipants,
    InvalidDisbursementTotal,
    CycleDurationTooShort,
    InvalidCycleDuration,
    InsufficientFunds,
    NoEligibleBorrowers,
    WithdrawBeforeBorrowing,
    AlreadyJoined,
    CollateralAlreadyWithdrawn,
    AmountOverflow,
}

impl ChitFundError {
    /// The human-readable message for this error.
    pub fn message(&self) -> (r: &'static str) {
        match self {
            ChitFundError::MaxParticipantsReached => "Maximum number of participants reached.",
            ChitFundError::InsufficientCollateral => "Insufficient collateral provided.",
            ChitFundError::ContributionAlreadyMade => "Contribution for this cycle has already been made.",
            ChitFundError::PendingContributions => "Not all participants have made their contributions.",
            ChitFundError::ParticipantNotFound => "Participant not found.",
            ChitFundError::InvalidBorrowerAccount => "Invalid borrower account.",
            ChitFundError::ChitFundInactive => "The chit fund is not active.",
            ChitFundError::ChitFundActive => "The chit fund is still active.",
            ChitFundError::CycleNotComplete => "The cycle is not yet complete.",
            ChitFundError::InvalidCollateralMint => "Invalid Collateral Mint.",
            ChitFundError::InvalidCollateralVaultOwner => "Invalid Collateral Vault Owner.",
            ChitFundError::InvalidContributionMint => "Invalid Contribution Mint.",
            ChitFundError::InvalidContributionVaultOwner => "Invalid Contribution Vault Owner.",
            ChitFundError::ExceedsMaximumCycles => "Exceeds the maximum number of cycles.",
            ChitFundError::InvalidCycle => "Invalid cycle for disbursement.",
            ChitFundError::AlreadyBorrowed => "Participant has already borrowed.",
            ChitFundError::Unauthorized => "Unauthorized access.",
            ChitFundError::InvalidDisbursementSchedule => "Invalid disbursement schedule.",
            ChitFundError::ExceedsMaximumParticipants => "Exceeds the maximum number of participants allowed.",
            ChitFundError::InvalidDisbursementTotal => "Total disbursement exceeds total contributions",
            ChitFundError::CycleDurationTooShort => "Cycle duration is too short, minimum duration required",
            ChitFundError::InvalidCycleDuration => "Invalid cycle duration",
            ChitFundError::InsufficientFunds => "Insufficient funds in user's token account for contribution",
            ChitFundError::NoEligibleBorrowers => "No eligible borrowers found in this cycle",
            ChitFundError::WithdrawBeforeBorrowing => "Cannot withdraw collateral before completing the borrowing cycle",
            ChitFundError::AlreadyJoined => "Participant has already joined this chit fund.",
            ChitFundError::CollateralAlreadyWithdrawn => "Collateral has already been withdrawn.",
            ChitFundError::AmountOverflow => "Amount bookkeeping would overflow or go negative.",
        }
    }
}

} // verus!
