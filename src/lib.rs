//! Token vesting escrow: linear unlock schedules, claims against them, and the
//! program-derived addresses that authorize every movement of custody funds.

pub mod address;
pub mod error;
pub mod schedule;
pub mod accounts;
pub mod instructions;
