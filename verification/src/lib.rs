//! A token-vesting ledger: a company locks a pool of fungible tokens in a
//! custody account and defines per-employee release schedules; employees
//! withdraw tokens only as they vest over time, subject to a cliff.
//!
//! The crate is organised leaf-first:
//! - [`errors`]: the error kinds every operation can surface.
//! - [`address`]: deterministic, collision-free derivation of record
//!   addresses from tenant names and beneficiary identities.
//! - [`schedule`]: the pure vested-amount formula.
//! - [`accounts`]: the two persistent record types and the per-claim
//!   account verification.
//! - [`ledger`]: the registry of records and the three boundary
//!   operations: `create_vesting_account`, `create_employee_account`,
//!   `claim_tokens`.

pub mod accounts;
pub mod address;
pub mod errors;
pub mod ledger;
pub mod schedule;
