//! The vesting ledger: the registry of tenant and employee records and
//! the three boundary operations — creating a tenant's vesting record,
//! creating an employee record, and claiming vested tokens.
//!
//! Records are resolved by derived address, re-verified explicitly on
//! every claim. The host environment authenticates signers, serialises
//! operations against a record, and executes the custody transfer; the
//! ledger is handed the authenticated identities, the clock reading and
//! the transfer outcome as plain values, and decides everything else.

use vstd::prelude::*;

use crate::accounts::EmployeeAccount;
use crate::accounts::VestingAccount;
use crate::address::AccountId;
use crate::address::Address;
use crate::address::AddressView;
use crate::address::DERIVED_BUMP;
use crate::address::MAX_NAME_LEN;
use crate::address::bytes_eq;
use crate::address::derive_employee_account_address;
use crate::address::derive_treasury_address;
use crate::address::derive_vesting_account_address;
use crate::address::employee_address_of;
use crate::address::treasury_address_of;
use crate::address::vesting_address_of;
use crate::errors::VestingError;
use crate::schedule::vested_spec;

verus! {

/// The accounts handed to [`VestingLedger::create_vesting_account`]: the
/// paying tenant owner (authenticated by the host) and the asset kind to
/// vest.
pub struct CreateVestingAccount {
    /// The authenticated principal creating, owning and paying for the
    /// record.
    pub signer: AccountId,
    /// The fungible-asset kind under vesting.
    pub mint: AccountId,
}

/// The accounts handed to [`VestingLedger::create_employee_account`].
pub struct CreateEmployeeAccount {
    /// The authenticated principal signing the creation; must own the
    /// tenant's vesting record.
    pub owner: AccountId,
    /// The principal entitled to the new schedule.
    pub beneficiary: AccountId,
    /// The address of the tenant's vesting record.
    pub vesting_account: Address,
}

/// The accounts handed to [`VestingLedger::claim_tokens`], as the caller
/// supplies them; every one is re-verified against derivation and the
/// stored records before anything moves.
pub struct ClaimTokens {
    /// The authenticated principal claiming.
    pub beneficiary: AccountId,
    /// The claimed employee record's address.
    pub employee_account: Address,
    /// The tenant's vesting record address.
    pub vesting_account: Address,
    /// The asset kind; must match the vesting record.
    pub mint: AccountId,
    /// The custody account; must match the vesting record.
    pub treasury_token_account: Address,
}

/// The position of the vesting record named `name`, or `-1` if there is
/// none; the first match counts, and under the ledger invariant there is
/// at most one.
pub open spec fn vesting_index(vs: Seq<VestingAccount>, name: Seq<u8>) -> int
    decreases vs.len(),
{
    if vs.len() == 0 {
        -1
    } else if vs[0].company_name@ == name {
        0
    } else if vesting_index(vs.drop_first(), name) < 0 {
        -1
    } else {
        vesting_index(vs.drop_first(), name) + 1
    }
}

/// What [`vesting_index`] finds: a non-negative index is the first whose
/// record carries `name`; every match lies at or after it.
pub proof fn lemma_vesting_index_char(vs: Seq<VestingAccount>, name: Seq<u8>)
    ensures
        vesting_index(vs, name) >= 0 ==> vesting_index(vs, name) < vs.len() && vs[vesting_index(
            vs,
            name,
        )].company_name@ == name,
        forall|k: int|
            0 <= k < vs.len() && (#[trigger] vs[k]).company_name@ == name ==> 0 <= vesting_index(
                vs,
                name,
            ) <= k,
    decreases vs.len(),
{
    if vs.len() > 0 && vs[0].company_name@ != name {
        lemma_vesting_index_char(vs.drop_first(), name);
        assert(forall|k: int|
            0 <= k < vs.len() - 1 ==> #[trigger] vs.drop_first()[k] == vs[k + 1]);
        assert forall|k: int|
            0 <= k < vs.len() && (#[trigger] vs[k]).company_name@ == name implies 0
            <= vesting_index(vs, name) <= k by {
            assert(vs.drop_first()[k - 1] == vs[k]);
        }
    }
}

/// The position of the employee record keyed `(beneficiary, vesting)`, or
/// `-1` if there is none; the first match counts, and under the ledger
/// invariant there is at most one.
pub open spec fn employee_index(
    es: Seq<EmployeeAccount>,
    beneficiary: Seq<u8>,
    vesting: AddressView,
) -> int
    decreases es.len(),
{
    if es.len() == 0 {
        -1
    } else if es[0].beneficiary@ == beneficiary && es[0].vesting_account@ == vesting {
        0
    } else if employee_index(es.drop_first(), beneficiary, vesting) < 0 {
        -1
    } else {
        employee_index(es.drop_first(), beneficiary, vesting) + 1
    }
}

/// What [`employee_index`] finds, in the same shape as
/// [`lemma_vesting_index_char`].
pub proof fn lemma_employee_index_char(
    es: Seq<EmployeeAccount>,
    beneficiary: Seq<u8>,
    vesting: AddressView,
)
    ensures
        employee_index(es, beneficiary, vesting) >= 0 ==> employee_index(es, beneficiary, vesting)
            < es.len() && es[employee_index(es, beneficiary, vesting)].beneficiary@ == beneficiary
            && es[employee_index(es, beneficiary, vesting)].vesting_account@ == vesting,
        forall|k: int|
            0 <= k < es.len() && (#[trigger] es[k]).beneficiary@ == beneficiary
                && es[k].vesting_account@ == vesting ==> 0 <= employee_index(
                es,
                beneficiary,
                vesting,
            ) <= k,
    decreases es.len(),
{
    if es.len() > 0 && !(es[0].beneficiary@ == beneficiary && es[0].vesting_account@ == vesting) {
        lemma_employee_index_char(es.drop_first(), beneficiary, vesting);
        assert(forall|k: int|
            0 <= k < es.len() - 1 ==> #[trigger] es.drop_first()[k] == es[k + 1]);
        assert forall|k: int|
            0 <= k < es.len() && (#[trigger] es[k]).beneficiary@ == beneficiary
                && es[k].vesting_account@ == vesting implies 0 <= employee_index(
            es,
            beneficiary,
            vesting,
        ) <= k by {
            assert(es.drop_first()[k - 1] == es[k]);
        }
    }
}

/// The verification a claim performs on its supplied accounts before any
/// amount is computed: re-derivation of both record addresses, the stored
/// disambiguation values, cross-record linkage, and the signer.
///
/// `None` means every check passed; `Some` names the first refusal.
pub open spec fn claim_account_checks(
    vesting: VestingAccount,
    employee: EmployeeAccount,
    accounts: ClaimTokens,
    company_name: Seq<u8>,
) -> Option<VestingError> {
    if company_name.len() > MAX_NAME_LEN as int {
        Some(VestingError::InvalidSeed)
    } else if accounts.vesting_account@ != vesting_address_of(company_name) {
        Some(VestingError::AccountMismatch)
    } else if vesting.company_name@ != company_name {
        Some(VestingError::AccountMismatch)
    } else if vesting.bump != DERIVED_BUMP {
        Some(VestingError::AccountMismatch)
    } else if accounts.employee_account@ != employee_address_of(
        accounts.beneficiary@,
        company_name,
    ) {
        Some(VestingError::AccountMismatch)
    } else if employee.bump != DERIVED_BUMP {
        Some(VestingError::AccountMismatch)
    } else if employee.vesting_account@ != accounts.vesting_account@ {
        Some(VestingError::LinkageMismatch)
    } else if vesting.treasury_token_account@ != accounts.treasury_token_account@ {
        Some(VestingError::LinkageMismatch)
    } else if vesting.mint@ != accounts.mint@ {
        Some(VestingError::LinkageMismatch)
    } else if employee.beneficiary@ != accounts.beneficiary@ {
        Some(VestingError::Unauthorized)
    } else {
        None
    }
}

/// Performs [`claim_account_checks`] on the resolved records and the
/// supplied accounts.
pub fn verify_claim_accounts(
    vesting: &VestingAccount,
    employee: &EmployeeAccount,
    accounts: &ClaimTokens,
    company_name: &Vec<u8>,
) -> (r: Option<VestingError>)
    ensures
        r == claim_account_checks(*vesting, *employee, *accounts, company_name@),
{
    if company_name.len() > MAX_NAME_LEN {
        return Some(VestingError::InvalidSeed);
    }
    let derived_vesting = match derive_vesting_account_address(company_name) {
        Ok(p) => p.0,
        Err(e) => return Some(e),
    };
    if !accounts.vesting_account.same_as(&derived_vesting) {
        return Some(VestingError::AccountMismatch);
    }
    if !bytes_eq(&vesting.company_name, company_name) {
        return Some(VestingError::AccountMismatch);
    }
    if vesting.bump != DERIVED_BUMP {
        return Some(VestingError::AccountMismatch);
    }
    let derived_employee = match derive_employee_account_address(
        &accounts.beneficiary,
        &accounts.vesting_account,
    ) {
        Ok(p) => p.0,
        Err(e) => return Some(e),
    };
    if !accounts.employee_account.same_as(&derived_employee) {
        return Some(VestingError::AccountMismatch);
    }
    if employee.bump != DERIVED_BUMP {
        return Some(VestingError::AccountMismatch);
    }
    if !employee.vesting_account.same_as(&accounts.vesting_account) {
        return Some(VestingError::LinkageMismatch);
    }
    if !vesting.treasury_token_account.same_as(&accounts.treasury_token_account) {
        return Some(VestingError::LinkageMismatch);
    }
    if !vesting.mint.same_as(&accounts.mint) {
        return Some(VestingError::LinkageMismatch);
    }
    if !employee.beneficiary.same_as(&accounts.beneficiary) {
        return Some(VestingError::Unauthorized);
    }
    None
}

/// Maps a returned address to its mathematical value, leaving errors as
/// they are; the shape the outcome specifications below are stated over.
pub open spec fn address_result_view(r: Result<Address, VestingError>) -> Result<
    AddressView,
    VestingError,
> {
    match r {
        Ok(a) => Ok(a@),
        Err(e) => Err(e),
    }
}

/// What creating a tenant's vesting record returns: the derived record
/// address, or the exact refusal — an overlong name, or a tenant of that
/// name already present.
pub open spec fn create_vesting_outcome(vs: Seq<VestingAccount>, company_name: Seq<u8>) -> Result<
    AddressView,
    VestingError,
> {
    if company_name.len() > MAX_NAME_LEN as int {
        Err(VestingError::InvalidName)
    } else if vesting_index(vs, company_name) >= 0 {
        Err(VestingError::DuplicateTenant)
    } else {
        Ok(vesting_address_of(company_name))
    }
}

/// What creating an employee record returns: the derived record address,
/// or the exact refusal — no vesting record at the supplied address, a
/// signer that does not own it, or an employee record already present for
/// the `(beneficiary, tenant)` pair.
pub open spec fn create_employee_outcome(
    vs: Seq<VestingAccount>,
    es: Seq<EmployeeAccount>,
    accounts: CreateEmployeeAccount,
) -> Result<AddressView, VestingError> {
    match accounts.vesting_account@ {
        AddressView::Vesting { company_name } => {
            if vesting_index(vs, company_name) < 0 {
                Err(VestingError::AccountMismatch)
            } else if vs[vesting_index(vs, company_name)].owner@ != accounts.owner@ {
                Err(VestingError::Unauthorized)
            } else if employee_index(es, accounts.beneficiary@, accounts.vesting_account@) >= 0 {
                Err(VestingError::DuplicateEmployee)
            } else {
                Ok(employee_address_of(accounts.beneficiary@, company_name))
            }
        },
        _ => Err(VestingError::AccountMismatch),
    }
}

/// What a claim returns: the transferred delta, or the exact refusal, in
/// the order the protocol checks — seed bound, re-derived record
/// addresses and their resolution, the per-account checks, the claimable
/// delta, and last the host's transfer outcome.
pub open spec fn claim_outcome(
    vs: Seq<VestingAccount>,
    es: Seq<EmployeeAccount>,
    accounts: ClaimTokens,
    company_name: Seq<u8>,
    now: i64,
    transfer_ok: bool,
) -> Result<u64, VestingError> {
    if company_name.len() > MAX_NAME_LEN as int {
        Err(VestingError::InvalidSeed)
    } else if accounts.vesting_account@ != vesting_address_of(company_name) {
        Err(VestingError::AccountMismatch)
    } else if vesting_index(vs, company_name) < 0 {
        Err(VestingError::AccountMismatch)
    } else if accounts.employee_account@ != employee_address_of(
        accounts.beneficiary@,
        company_name,
    ) {
        Err(VestingError::AccountMismatch)
    } else if employee_index(es, accounts.beneficiary@, accounts.vesting_account@) < 0 {
        Err(VestingError::AccountMismatch)
    } else {
        match claim_account_checks(
            vs[vesting_index(vs, company_name)],
            es[employee_index(es, accounts.beneficiary@, accounts.vesting_account@)],
            accounts,
            company_name,
        ) {
            Some(e) => Err(e),
            None => match es[employee_index(
                es,
                accounts.beneficiary@,
                accounts.vesting_account@,
            )].claimable_spec(now) {
                Err(e) => Err(e),
                Ok(amount) => if transfer_ok {
                    Ok(amount)
                } else {
                    Err(VestingError::TransferFailed)
                },
            },
        }
    }
}

/// How one ledger state's employee records advance to another's: no
/// record is dropped, no running total ever decreases, no entitlement
/// changes, and no total overdraws its entitlement. Every boundary
/// operation ensures this relation between its pre- and post-state.
pub open spec fn withdrawals_advance(pre: Seq<EmployeeAccount>, post: Seq<EmployeeAccount>) -> bool {
    &&& pre.len() <= post.len()
    &&& forall|i: int|
        0 <= i < pre.len() ==> (#[trigger] post[i]).total_withdrawn >= pre[i].total_withdrawn
            && post[i].total_amount == pre[i].total_amount && post[i].total_withdrawn
            <= post[i].total_amount
}

/// [`withdrawals_advance`] composes: across any sequence of operations,
/// each running total is non-decreasing and never exceeds its (stable)
/// entitlement.
pub proof fn lemma_withdrawals_advance_trans(
    a: Seq<EmployeeAccount>,
    b: Seq<EmployeeAccount>,
    c: Seq<EmployeeAccount>,
)
    requires
        withdrawals_advance(a, b),
        withdrawals_advance(b, c),
    ensures
        withdrawals_advance(a, c),
{
}

/// True when `e`'s back-reference is the derived address of some vesting
/// record present in `vs`.
pub open spec fn linked_to_vesting(vs: Seq<VestingAccount>, e: EmployeeAccount) -> bool {
    exists|k: int|
        0 <= k < vs.len() && vesting_address_of((#[trigger] vs[k]).company_name@)
            == e.vesting_account@
}

/// The registry of all records, keyed by derived address.
///
/// The host environment's account store is modelled as this one value;
/// uniqueness at insertion stands in for "the derived address is already
/// occupied".
pub struct VestingLedger {
    /// One record per tenant, in creation order.
    pub vesting_accounts: Vec<VestingAccount>,
    /// One record per `(tenant, beneficiary)` pair, in creation order.
    pub employee_accounts: Vec<EmployeeAccount>,
}

impl VestingLedger {
    /// The ledger invariant: every record is well-formed, no two tenants
    /// share a name, no two employee records share a
    /// `(beneficiary, tenant)` key, and every employee record references
    /// a present tenant.
    pub open spec fn inv(self) -> bool {
        &&& forall|i: int|
            0 <= i < self.vesting_accounts@.len() ==> (#[trigger] self.vesting_accounts@[i]).wf()
        &&& forall|i: int, j: int|
            0 <= i < j < self.vesting_accounts@.len() ==> (#[trigger] self.vesting_accounts@[i]).company_name@
                != (#[trigger] self.vesting_accounts@[j]).company_name@
        &&& forall|i: int|
            0 <= i < self.employee_accounts@.len() ==> (#[trigger] self.employee_accounts@[i]).wf()
        &&& forall|i: int, j: int|
            0 <= i < j < self.employee_accounts@.len() ==> !((
            #[trigger] self.employee_accounts@[i]).beneficiary@
                == (#[trigger] self.employee_accounts@[j]).beneficiary@
                && self.employee_accounts@[i].vesting_account@
                == self.employee_accounts@[j].vesting_account@)
        &&& forall|i: int|
            0 <= i < self.employee_accounts@.len() ==> linked_to_vesting(
                self.vesting_accounts@,
                #[trigger] self.employee_accounts@[i],
            )
    }

    /// An empty ledger.
    pub fn new() -> (r: VestingLedger)
        ensures
            r.inv(),
            r.vesting_accounts@.len() == 0,
            r.employee_accounts@.len() == 0,
    {
        VestingLedger { vesting_accounts: Vec::new(), employee_accounts: Vec::new() }
    }

    /// Resolves the vesting record named `name`, as the host would resolve
    /// the derived address.
    pub fn find_vesting(&self, name: &Vec<u8>) -> (r: Option<usize>)
        ensures
            match r {
                Some(i) => i < self.vesting_accounts@.len() && vesting_index(
                    self.vesting_accounts@,
                    name@,
                ) == i as int,
                None => vesting_index(self.vesting_accounts@, name@) < 0,
            },
    {
        let mut i: usize = 0;
        while i < self.vesting_accounts.len()
            invariant
                i <= self.vesting_accounts@.len(),
                forall|k: int|
                    0 <= k < i ==> (#[trigger] self.vesting_accounts@[k]).company_name@ != name@,
            decreases self.vesting_accounts@.len() - i,
        {
            if bytes_eq(&self.vesting_accounts[i].company_name, name) {
                proof {
                    lemma_vesting_index_char(self.vesting_accounts@, name@);
                }
                return Some(i);
            }
            i = i + 1;
        }
        proof {
            lemma_vesting_index_char(self.vesting_accounts@, name@);
        }
        None
    }

    /// Resolves the employee record keyed `(beneficiary, vesting)`, as the
    /// host would resolve the derived address.
    pub fn find_employee(&self, beneficiary: &AccountId, vesting: &Address) -> (r: Option<usize>)
        ensures
            match r {
                Some(i) => i < self.employee_accounts@.len() && employee_index(
                    self.employee_accounts@,
                    beneficiary@,
                    vesting@,
                ) == i as int,
                None => employee_index(self.employee_accounts@, beneficiary@, vesting@) < 0,
            },
    {
        let mut i: usize = 0;
        while i < self.employee_accounts.len()
            invariant
                i <= self.employee_accounts@.len(),
                forall|k: int|
                    0 <= k < i ==> !((#[trigger] self.employee_accounts@[k]).beneficiary@
                        == beneficiary@ && self.employee_accounts@[k].vesting_account@ == vesting@),
            decreases self.employee_accounts@.len() - i,
        {
            let matches_beneficiary = self.employee_accounts[i].beneficiary.same_as(beneficiary);
            let matches_vesting = self.employee_accounts[i].vesting_account.same_as(vesting);
            if matches_beneficiary && matches_vesting {
                proof {
                    lemma_employee_index_char(self.employee_accounts@, beneficiary@, vesting@);
                }
                return Some(i);
            }
            i = i + 1;
        }
        proof {
            lemma_employee_index_char(self.employee_accounts@, beneficiary@, vesting@);
        }
        None
    }

    /// Creates the tenant's vesting record and its treasury, owned by the
    /// signing principal, exactly as [`create_vesting_outcome`] states;
    /// on refusal the ledger is untouched.
    pub fn create_vesting_account(
        &mut self,
        accounts: CreateVestingAccount,
        company_name: Vec<u8>,
    ) -> (r: Result<Address, VestingError>)
        requires
            old(self).inv(),
        ensures
            final(self).inv(),
            final(self).employee_accounts == old(self).employee_accounts,
            withdrawals_advance(old(self).employee_accounts@, final(self).employee_accounts@),
            address_result_view(r) == create_vesting_outcome(
                old(self).vesting_accounts@,
                company_name@,
            ),
            r is Err ==> final(self).vesting_accounts == old(self).vesting_accounts,
            r is Ok ==> {
                &&& final(self).vesting_accounts@.len() == old(self).vesting_accounts@.len() + 1
                &&& forall|k: int|
                    0 <= k < old(self).vesting_accounts@.len()
                        ==> #[trigger] final(self).vesting_accounts@[k] == old(self).vesting_accounts@[k]
                &&& final(self).vesting_accounts@.last().owner@ == accounts.signer@
                &&& final(self).vesting_accounts@.last().mint@ == accounts.mint@
                &&& final(self).vesting_accounts@.last().treasury_token_account@ == treasury_address_of(
                    company_name@,
                )
                &&& final(self).vesting_accounts@.last().company_name@ == company_name@
                &&& final(self).vesting_accounts@.last().treasury_bump == DERIVED_BUMP
                &&& final(self).vesting_accounts@.last().bump == DERIVED_BUMP
            },
    {
        if company_name.len() > MAX_NAME_LEN {
            return Err(VestingError::InvalidName);
        }
        match self.find_vesting(&company_name) {
            Some(_) => {
                return Err(VestingError::DuplicateTenant);
            },
            None => {},
        }
        let (vesting_addr, bump) = match derive_vesting_account_address(&company_name) {
            Ok(p) => p,
            Err(e) => {
                return Err(e);
            },
        };
        let (treasury_addr, treasury_bump) = match derive_treasury_address(&company_name) {
            Ok(p) => p,
            Err(e) => {
                return Err(e);
            },
        };
        let record = VestingAccount {
            owner: accounts.signer,
            mint: accounts.mint,
            treasury_token_account: treasury_addr,
            company_name,
            treasury_bump,
            bump,
        };
        self.vesting_accounts.push(record);
        proof {
            lemma_vesting_index_char(old(self).vesting_accounts@, company_name@);
            assert forall|i: int| 0 <= i < self.employee_accounts@.len() implies linked_to_vesting(
                self.vesting_accounts@,
                #[trigger] self.employee_accounts@[i],
            ) by {
                let e = self.employee_accounts@[i];
                assert(linked_to_vesting(old(self).vesting_accounts@, e));
                let k = choose|k: int|
                    0 <= k < old(self).vesting_accounts@.len() && vesting_address_of(
                        (#[trigger] old(self).vesting_accounts@[k]).company_name@,
                    ) == e.vesting_account@;
                assert(self.vesting_accounts@[k] == old(self).vesting_accounts@[k]);
            }
        }
        Ok(vesting_addr)
    }

    /// Creates an employee record with a zeroed running total under the
    /// signing owner's tenant, exactly as [`create_employee_outcome`]
    /// states; on refusal the ledger is untouched.
    ///
    /// The schedule must be ordered `start <= cliff <= end` with a
    /// positive entitlement; no tokens are moved or reserved, so the pool
    /// may be oversubscribed — that policy question is the caller's.
    pub fn create_employee_account(
        &mut self,
        accounts: CreateEmployeeAccount,
        start_time: i64,
        end_time: i64,
        total_amount: u64,
        cliff_time: i64,
    ) -> (r: Result<Address, VestingError>)
        requires
            old(self).inv(),
            start_time <= cliff_time,
            cliff_time <= end_time,
            total_amount > 0,
        ensures
            final(self).inv(),
            final(self).vesting_accounts == old(self).vesting_accounts,
            withdrawals_advance(old(self).employee_accounts@, final(self).employee_accounts@),
            address_result_view(r) == create_employee_outcome(
                old(self).vesting_accounts@,
                old(self).employee_accounts@,
                accounts,
            ),
            r is Err ==> final(self).employee_accounts == old(self).employee_accounts,
            r is Ok ==> {
                &&& final(self).employee_accounts@.len() == old(self).employee_accounts@.len() + 1
                &&& forall|k: int|
                    0 <= k < old(self).employee_accounts@.len()
                        ==> #[trigger] final(self).employee_accounts@[k] == old(self).employee_accounts@[k]
                &&& final(self).employee_accounts@.last().beneficiary@ == accounts.beneficiary@
                &&& final(self).employee_accounts@.last().start_time == start_time
                &&& final(self).employee_accounts@.last().end_time == end_time
                &&& final(self).employee_accounts@.last().cliff_time == cliff_time
                &&& final(self).employee_accounts@.last().vesting_account@ == accounts.vesting_account@
                &&& final(self).employee_accounts@.last().total_amount == total_amount
                &&& final(self).employee_accounts@.last().total_withdrawn == 0
                &&& final(self).employee_accounts@.last().bump == DERIVED_BUMP
            },
    {
        let ghost supplied = accounts;
        let vi: usize = match &accounts.vesting_account {
            Address::Vesting { company_name } => match self.find_vesting(company_name) {
                Some(i) => i,
                None => {
                    return Err(VestingError::AccountMismatch);
                },
            },
            _ => {
                return Err(VestingError::AccountMismatch);
            },
        };
        if !self.vesting_accounts[vi].owner.same_as(&accounts.owner) {
            return Err(VestingError::Unauthorized);
        }
        match self.find_employee(&accounts.beneficiary, &accounts.vesting_account) {
            Some(_) => {
                return Err(VestingError::DuplicateEmployee);
            },
            None => {},
        }
        let (employee_addr, bump) = match derive_employee_account_address(
            &accounts.beneficiary,
            &accounts.vesting_account,
        ) {
            Ok(p) => p,
            Err(e) => {
                return Err(e);
            },
        };
        let record = EmployeeAccount {
            beneficiary: accounts.beneficiary,
            start_time,
            end_time,
            cliff_time,
            vesting_account: accounts.vesting_account,
            total_amount,
            total_withdrawn: 0,
            bump,
        };
        self.employee_accounts.push(record);
        proof {
            lemma_employee_index_char(
                old(self).employee_accounts@,
                supplied.beneficiary@,
                supplied.vesting_account@,
            );
            assert(linked_to_vesting(
                self.vesting_accounts@,
                self.employee_accounts@.last(),
            )) by {
                lemma_vesting_index_char(
                    self.vesting_accounts@,
                    supplied.vesting_account@->Vesting_company_name,
                );
                assert(vesting_address_of(
                    (#[trigger] self.vesting_accounts@[vi as int]).company_name@,
                ) == supplied.vesting_account@);
            }
            assert forall|i: int|
                0 <= i < old(self).employee_accounts@.len() implies linked_to_vesting(
                self.vesting_accounts@,
                #[trigger] self.employee_accounts@[i],
            ) by {
                assert(self.employee_accounts@[i] == old(self).employee_accounts@[i]);
                assert(linked_to_vesting(self.vesting_accounts@, old(self).employee_accounts@[i]));
            }
        }
        Ok(employee_addr)
    }

    /// Runs the claim protocol for the signing beneficiary against the
    /// tenant named `company_name`, exactly as [`claim_outcome`] states:
    /// re-derive and verify every supplied account, compute the vested
    /// amount at `now`, take the positive claimable delta or refuse with
    /// `NothingToClaim`, and commit the delta to the running total only
    /// when the host's transfer — whose outcome the caller reports in
    /// `transfer_ok` — went through. On any refusal, a failed transfer
    /// included, the ledger is untouched.
    pub fn claim_tokens(
        &mut self,
        accounts: &ClaimTokens,
        company_name: &Vec<u8>,
        now: i64,
        transfer_ok: bool,
    ) -> (r: Result<u64, VestingError>)
        requires
            old(self).inv(),
        ensures
            final(self).inv(),
            final(self).vesting_accounts == old(self).vesting_accounts,
            final(self).employee_accounts@.len() == old(self).employee_accounts@.len(),
            r == claim_outcome(
                old(self).vesting_accounts@,
                old(self).employee_accounts@,
                *accounts,
                company_name@,
                now,
                transfer_ok,
            ),
            withdrawals_advance(old(self).employee_accounts@, final(self).employee_accounts@),
            r is Err ==> final(self).employee_accounts == old(self).employee_accounts,
            !transfer_ok ==> final(self).employee_accounts == old(self).employee_accounts,
            r matches Ok(amount) ==> ({
                let ei = employee_index(
                    old(self).employee_accounts@,
                    accounts.beneficiary@,
                    accounts.vesting_account@,
                );
                let pre = old(self).employee_accounts@[ei];
                let post = final(self).employee_accounts@[ei];
                &&& 0 <= ei < old(self).employee_accounts@.len()
                &&& amount > 0
                &&& forall|k: int|
                    0 <= k < old(self).employee_accounts@.len() && k != ei
                        ==> #[trigger] final(self).employee_accounts@[k] == old(self).employee_accounts@[k]
                &&& post.total_withdrawn == pre.total_withdrawn + amount
                &&& post.total_withdrawn <= post.total_amount
                &&& Ok::<u64, VestingError>(post.total_withdrawn) == vested_spec(
                    now,
                    pre.start_time,
                    pre.cliff_time,
                    pre.end_time,
                    pre.total_amount,
                )
                &&& post.beneficiary@ == pre.beneficiary@
                &&& post.start_time == pre.start_time
                &&& post.end_time == pre.end_time
                &&& post.cliff_time == pre.cliff_time
                &&& post.vesting_account@ == pre.vesting_account@
                &&& post.total_amount == pre.total_amount
                &&& post.bump == pre.bump
            }),
    {
        if company_name.len() > MAX_NAME_LEN {
            return Err(VestingError::InvalidSeed);
        }
        let derived_vesting = match derive_vesting_account_address(company_name) {
            Ok(p) => p.0,
            Err(e) => {
                return Err(e);
            },
        };
        if !accounts.vesting_account.same_as(&derived_vesting) {
            return Err(VestingError::AccountMismatch);
        }
        let vi: usize = match self.find_vesting(company_name) {
            Some(i) => i,
            None => {
                return Err(VestingError::AccountMismatch);
            },
        };
        let derived_employee = match derive_employee_account_address(
            &accounts.beneficiary,
            &accounts.vesting_account,
        ) {
            Ok(p) => p.0,
            Err(e) => {
                return Err(e);
            },
        };
        if !accounts.employee_account.same_as(&derived_employee) {
            return Err(VestingError::AccountMismatch);
        }
        let ei: usize = match self.find_employee(&accounts.beneficiary, &accounts.vesting_account) {
            Some(i) => i,
            None => {
                return Err(VestingError::AccountMismatch);
            },
        };
        match verify_claim_accounts(
            &self.vesting_accounts[vi],
            &self.employee_accounts[ei],
            accounts,
            company_name,
        ) {
            Some(e) => {
                return Err(e);
            },
            None => {},
        }
        let amount: u64 = match self.employee_accounts[ei].claimable(now) {
            Ok(a) => a,
            Err(e) => {
                return Err(e);
            },
        };
        if !transfer_ok {
            return Err(VestingError::TransferFailed);
        }
        let pre_withdrawn: u64 = self.employee_accounts[ei].total_withdrawn;
        self.employee_accounts[ei].total_withdrawn = pre_withdrawn + amount;
        Ok(amount)
    }
}

} // verus!
