//! A rotating savings and credit association ("chit fund"): fund
//! configuration, enrollment, per-cycle contributions, borrower selection,
//! disbursement bookkeeping and collateral release, as a verified state
//! machine. Asset transfers, record storage and the clock are supplied by
//! the caller as plain values.

pub mod admin;
pub mod contributions;
pub mod disburse;
pub mod error;
pub mod join;
pub mod laws;
pub mod state;
pub mod withdraw;
