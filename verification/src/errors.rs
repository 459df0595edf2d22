//! Error kinds surfaced by the vesting operations.
//!
//! Every precondition violation aborts the whole operation before any state
//! mutation is attempted; the caller always learns a specific kind.

use vstd::prelude::*;

verus! {

/// The reasons a vesting operation can fail.
#[derive(Clone, Copy, Debug, PartialEq, Eq, Structural)]
pub enum VestingError {
    /// A derivation seed (tenant name) exceeds the bounded length.
    InvalidSeed,
    /// A tenant name handed to record creation exceeds the bounded length.
    InvalidName,
    /// A vesting record already exists for the tenant name.
    DuplicateTenant,
    /// An employee record already exists for the (beneficiary, tenant) pair.
    DuplicateEmployee,
    /// The schedule's linear window is empty (`end <= start`) where the
    /// interpolation would need to divide by its width.
    DegenerateSchedule,
    /// `total * (now - start)` exceeds the 64-bit arithmetic width.
    ArithmeticOverflow,
    /// The signer is not the principal the operation demands.
    Unauthorized,
    /// A supplied record does not match its re-derived address or stored
    /// disambiguation value, or no record exists at the derived address.
    AccountMismatch,
    /// Cross-record consistency failed: a record's back-reference or a
    /// supplied custody/token identity does not match what is stored.
    LinkageMismatch,
    /// No positive claimable delta is available; a no-op rejection.
    NothingToClaim,
    /// The host's custody transfer primitive reported failure; the claim
    /// aborts with no state change.
    TransferFailed,
}

} // verus!
