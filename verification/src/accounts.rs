//! The two persistent record types of the ledger.
//!
//! A [`VestingAccount`] is created once per tenant and never mutated
//! afterwards. An [`EmployeeAccount`] is created once per
//! `(tenant, beneficiary)` pair and mutated only by successful claims, on
//! its `total_withdrawn` field alone.

use vstd::prelude::*;

use crate::address::AccountId;
use crate::address::Address;
use crate::address::AddressView;
use crate::address::DERIVED_BUMP;
use crate::address::MAX_NAME_LEN;
use crate::address::treasury_address_of;
use crate::errors::VestingError;
use crate::schedule::lemma_vested_le_total;
use crate::schedule::vested;
use crate::schedule::vested_spec;

verus! {

/// One tenant's vesting record: write-once identity of the owner, the
/// asset kind under vesting, and the treasury account that holds the
/// locked pool.
#[derive(Debug)]
pub struct VestingAccount {
    /// The principal that created the record.
    pub owner: AccountId,
    /// The fungible-asset kind under vesting.
    pub mint: AccountId,
    /// The custody account holding the locked pool, controlled only by
    /// this record.
    pub treasury_token_account: Address,
    /// The tenant label; the derivation seed, unique per ledger.
    pub company_name: Vec<u8>,
    /// Disambiguation value of the treasury derivation.
    pub treasury_bump: u8,
    /// Disambiguation value of the record derivation.
    pub bump: u8,
}

impl VestingAccount {
    /// Well-formedness: the name is within the seed bound, the treasury
    /// address is the one derived from the name, and the stored
    /// disambiguation values are the canonical ones.
    pub open spec fn wf(self) -> bool {
        &&& self.company_name@.len() <= MAX_NAME_LEN as int
        &&& self.treasury_token_account@ == treasury_address_of(self.company_name@)
        &&& self.treasury_bump == DERIVED_BUMP
        &&& self.bump == DERIVED_BUMP
    }
}

/// One employee's vesting record under one tenant: the schedule, the full
/// entitlement, and the running total already withdrawn.
#[derive(Debug)]
pub struct EmployeeAccount {
    /// The entitled principal.
    pub beneficiary: AccountId,
    /// The instant linear vesting is measured from.
    pub start_time: i64,
    /// The instant the full entitlement is reached.
    pub end_time: i64,
    /// The earliest instant at which anything becomes claimable.
    pub cliff_time: i64,
    /// Back-reference: the address of the owning tenant's vesting record.
    pub vesting_account: Address,
    /// Total units entitled over the full schedule.
    pub total_amount: u64,
    /// Cumulative units already released; only ever grows.
    pub total_withdrawn: u64,
    /// Disambiguation value of the record derivation.
    pub bump: u8,
}

impl EmployeeAccount {
    /// Well-formedness: the schedule is ordered, the entitlement is
    /// positive and never overdrawn, the back-reference is a vesting
    /// record address, and the stored disambiguation value is canonical.
    pub open spec fn wf(self) -> bool {
        &&& self.start_time <= self.cliff_time <= self.end_time
        &&& self.total_amount > 0
        &&& self.total_withdrawn <= self.total_amount
        &&& self.vesting_account@ is Vesting
        &&& self.bump == DERIVED_BUMP
    }

    /// The claimable delta at instant `now`: the vested amount minus what
    /// is already withdrawn. A delta of zero or less is a no-op rejection,
    /// `NothingToClaim`; a schedule or arithmetic failure is passed
    /// through.
    pub open spec fn claimable_spec(self, now: i64) -> Result<u64, VestingError> {
        match vested_spec(now, self.start_time, self.cliff_time, self.end_time, self.total_amount) {
            Err(e) => Err(e),
            Ok(v) => if v <= self.total_withdrawn {
                Err(VestingError::NothingToClaim)
            } else {
                Ok((v - self.total_withdrawn) as u64)
            },
        }
    }

    /// Computes the claimable delta at `now`, exactly as
    /// [`Self::claimable_spec`] states it. A positive delta tops the
    /// running total up to the vested amount and never past the
    /// entitlement.
    pub fn claimable(&self, now: i64) -> (r: Result<u64, VestingError>)
        ensures
            r == self.claimable_spec(now),
            r matches Ok(amount) ==> {
                &&& amount > 0
                &&& self.total_withdrawn + amount == vested_spec(
                    now,
                    self.start_time,
                    self.cliff_time,
                    self.end_time,
                    self.total_amount,
                )->Ok_0
                &&& self.total_withdrawn + amount <= self.total_amount
            },
    {
        proof {
            lemma_vested_le_total(
                now,
                self.start_time,
                self.cliff_time,
                self.end_time,
                self.total_amount,
            );
        }
        match vested(now, self.start_time, self.cliff_time, self.end_time, self.total_amount) {
            Err(e) => Err(e),
            Ok(v) => if v <= self.total_withdrawn {
                Err(VestingError::NothingToClaim)
            } else {
                Ok(v - self.total_withdrawn)
            },
        }
    }

}

/// Before the cliff there is never anything to claim, whatever the rest
/// of the schedule and whatever has been withdrawn.
pub proof fn lemma_before_cliff_claims_nothing(e: EmployeeAccount, now: i64)
    requires
        now < e.cliff_time,
    ensures
        e.claimable_spec(now) == Err::<u64, VestingError>(VestingError::NothingToClaim),
{
}

/// Once the full entitlement is withdrawn, a claim reports
/// `NothingToClaim` at every instant at which the vested amount is
/// computable at all, no matter how much more time elapses.
pub proof fn lemma_fully_withdrawn_claims_nothing(e: EmployeeAccount, now: i64)
    requires
        e.total_withdrawn == e.total_amount,
        vested_spec(now, e.start_time, e.cliff_time, e.end_time, e.total_amount) is Ok,
    ensures
        e.claimable_spec(now) == Err::<u64, VestingError>(VestingError::NothingToClaim),
{
    lemma_vested_le_total(now, e.start_time, e.cliff_time, e.end_time, e.total_amount);
}

} // verus!
