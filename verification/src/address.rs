//! Identities and deterministic address derivation.
//!
//! The host environment resolves records by address. A derived address is a
//! pure function of its seed inputs: the tenant's name for the vesting
//! record and its treasury, and the `(beneficiary, vesting record)` pair
//! for an employee record. Each kind of record draws from its own
//! derivation domain, so two distinct logical entities can never collide
//! on one address, and re-deriving from the same inputs always yields the
//! same address.

use vstd::prelude::*;

use crate::errors::VestingError;

verus! {

/// The longest tenant name (in bytes) accepted as a derivation seed.
pub const MAX_NAME_LEN: usize = 50;

/// The derivation disambiguation value stored on every record.
///
/// Derivation in this ledger is collision-free by construction, so no
/// fallback search is ever needed and every derivation reports the same
/// canonical value; records store it and the claim protocol re-verifies
/// it.
pub const DERIVED_BUMP: u8 = 255;

/// An identity chosen by the host environment: a signing principal or a
/// fungible-asset kind. Opaque bytes, compared only for equality.
#[derive(Debug)]
pub struct AccountId {
    pub bytes: Vec<u8>,
}

impl View for AccountId {
    type V = Seq<u8>;

    open spec fn view(&self) -> Seq<u8> {
        self.bytes@
    }
}

/// Returns a fresh vector holding the same bytes.
pub fn clone_bytes(v: &Vec<u8>) -> (r: Vec<u8>)
    ensures
        r@ == v@,
{
    let mut r: Vec<u8> = Vec::new();
    let mut i: usize = 0;
    while i < v.len()
        invariant
            i <= v.len(),
            r@ == v@.subrange(0, i as int),
        decreases v.len() - i,
    {
        r.push(v[i]);
        proof {
            assert(v@.subrange(0, i + 1 as int) =~= v@.subrange(0, i as int).push(v@[i as int]));
        }
        i = i + 1;
    }
    proof {
        assert(r@ =~= v@);
    }
    r
}

/// Compares two byte vectors for equality of contents.
pub fn bytes_eq(a: &Vec<u8>, b: &Vec<u8>) -> (r: bool)
    ensures
        r == (a@ == b@),
{
    if a.len() != b.len() {
        return false;
    }
    let mut i: usize = 0;
    while i < a.len()
        invariant
            i <= a.len(),
            a@.len() == b@.len(),
            forall|k: int| 0 <= k < i ==> a@[k] == b@[k],
        decreases a.len() - i,
    {
        if a[i] != b[i] {
            return false;
        }
        i = i + 1;
    }
    proof {
        assert(a@ =~= b@);
    }
    true
}

impl AccountId {
    /// Wraps the given identity bytes.
    pub fn new(bytes: Vec<u8>) -> (r: AccountId)
        ensures
            r@ == bytes@,
    {
        AccountId { bytes }
    }

    /// Returns a fresh identity holding the same bytes.
    pub fn duplicate(&self) -> (r: AccountId)
        ensures
            r@ == self@,
    {
        AccountId { bytes: clone_bytes(&self.bytes) }
    }

    /// True exactly when both identities hold the same bytes.
    pub fn same_as(&self, other: &AccountId) -> (r: bool)
        ensures
            r == (self@ == other@),
    {
        bytes_eq(&self.bytes, &other.bytes)
    }
}

/// An account address as the host environment resolves it: either an
/// identity the host chose, or one derived from seeds in one of the three
/// derivation domains of this ledger.
#[derive(Debug)]
pub enum Address {
    /// An externally chosen account identity.
    Account { id: AccountId },
    /// The vesting record derived from a tenant name.
    Vesting { company_name: Vec<u8> },
    /// The treasury (custody) account derived from a tenant name.
    Treasury { company_name: Vec<u8> },
    /// The employee record derived from a beneficiary identity and the
    /// tenant's vesting record.
    Employee { beneficiary: AccountId, company_name: Vec<u8> },
}

/// The mathematical value of an [`Address`].
pub enum AddressView {
    Account { id: Seq<u8> },
    Vesting { company_name: Seq<u8> },
    Treasury { company_name: Seq<u8> },
    Employee { beneficiary: Seq<u8>, company_name: Seq<u8> },
}

impl View for Address {
    type V = AddressView;

    open spec fn view(&self) -> AddressView {
        match self {
            Address::Account { id } => AddressView::Account { id: id@ },
            Address::Vesting { company_name } => AddressView::Vesting {
                company_name: company_name@,
            },
            Address::Treasury { company_name } => AddressView::Treasury {
                company_name: company_name@,
            },
            Address::Employee { beneficiary, company_name } => AddressView::Employee {
                beneficiary: beneficiary@,
                company_name: company_name@,
            },
        }
    }
}

/// The address of the vesting record for tenant `name`.
pub open spec fn vesting_address_of(name: Seq<u8>) -> AddressView {
    AddressView::Vesting { company_name: name }
}

/// The address of the treasury (custody) account for tenant `name`.
pub open spec fn treasury_address_of(name: Seq<u8>) -> AddressView {
    AddressView::Treasury { company_name: name }
}

/// The address of the employee record for `beneficiary` under the tenant
/// named `name`.
pub open spec fn employee_address_of(beneficiary: Seq<u8>, name: Seq<u8>) -> AddressView {
    AddressView::Employee { beneficiary, company_name: name }
}

impl Address {
    /// True exactly when both addresses are the same.
    pub fn same_as(&self, other: &Address) -> (r: bool)
        ensures
            r == (self@ == other@),
    {
        match (self, other) {
            (Address::Account { id: a }, Address::Account { id: b }) => a.same_as(b),
            (Address::Vesting { company_name: a }, Address::Vesting { company_name: b }) => bytes_eq(
                a,
                b,
            ),
            (Address::Treasury { company_name: a }, Address::Treasury { company_name: b }) => bytes_eq(
                a,
                b,
            ),
            (
                Address::Employee { beneficiary: a, company_name: an },
                Address::Employee { beneficiary: b, company_name: bn },
            ) => {
                let same_beneficiary = a.same_as(b);
                let same_name = bytes_eq(an, bn);
                same_beneficiary && same_name
            },
            _ => false,
        }
    }
}

/// Derives the vesting record address and its disambiguation value from a
/// tenant name; rejects a name over [`MAX_NAME_LEN`] bytes.
pub fn derive_vesting_account_address(company_name: &Vec<u8>) -> (r: Result<
    (Address, u8),
    VestingError,
>)
    ensures
        company_name@.len() <= MAX_NAME_LEN ==> (r matches Ok(a) && a.0@ == vesting_address_of(
            company_name@,
        ) && a.1 == DERIVED_BUMP),
        company_name@.len() > MAX_NAME_LEN ==> r == Err::<(Address, u8), VestingError>(
            VestingError::InvalidSeed,
        ),
{
    if company_name.len() > MAX_NAME_LEN {
        return Err(VestingError::InvalidSeed);
    }
    Ok((Address::Vesting { company_name: clone_bytes(company_name) }, DERIVED_BUMP))
}

/// Derives the treasury (custody) account address and its disambiguation
/// value from a tenant name; rejects a name over [`MAX_NAME_LEN`] bytes.
pub fn derive_treasury_address(company_name: &Vec<u8>) -> (r: Result<(Address, u8), VestingError>)
    ensures
        company_name@.len() <= MAX_NAME_LEN ==> (r matches Ok(a) && a.0@ == treasury_address_of(
            company_name@,
        ) && a.1 == DERIVED_BUMP),
        company_name@.len() > MAX_NAME_LEN ==> r == Err::<(Address, u8), VestingError>(
            VestingError::InvalidSeed,
        ),
{
    if company_name.len() > MAX_NAME_LEN {
        return Err(VestingError::InvalidSeed);
    }
    Ok((Address::Treasury { company_name: clone_bytes(company_name) }, DERIVED_BUMP))
}

/// Derives the employee record address and its disambiguation value from a
/// beneficiary identity and the tenant's vesting record address; anything
/// but a vesting record address is rejected.
pub fn derive_employee_account_address(beneficiary: &AccountId, vesting_account: &Address) -> (r:
    Result<(Address, u8), VestingError>)
    ensures
        vesting_account@ matches AddressView::Vesting { company_name } ==> (r matches Ok(a)
            && a.0@ == employee_address_of(beneficiary@, company_name) && a.1 == DERIVED_BUMP),
        !(vesting_account@ is Vesting) ==> r == Err::<(Address, u8), VestingError>(
            VestingError::AccountMismatch,
        ),
{
    match vesting_account {
        Address::Vesting { company_name } => Ok(
            (
                Address::Employee {
                    beneficiary: beneficiary.duplicate(),
                    company_name: clone_bytes(company_name),
                },
                DERIVED_BUMP,
            ),
        ),
        _ => Err(VestingError::AccountMismatch),
    }
}

/// Same seeds, same address; distinct tenant names, distinct addresses —
/// and the vesting and treasury domains never meet, whatever the names.
pub proof fn lemma_tenant_derivation_injective(n1: Seq<u8>, n2: Seq<u8>)
    ensures
        (vesting_address_of(n1) == vesting_address_of(n2)) == (n1 == n2),
        (treasury_address_of(n1) == treasury_address_of(n2)) == (n1 == n2),
        vesting_address_of(n1) != treasury_address_of(n2),
{
}

/// Same `(beneficiary, tenant)` pair, same employee address; a different
/// beneficiary or a different tenant, a different address — and an
/// employee address never meets a vesting or treasury address.
pub proof fn lemma_employee_derivation_injective(
    b1: Seq<u8>,
    n1: Seq<u8>,
    b2: Seq<u8>,
    n2: Seq<u8>,
)
    ensures
        (employee_address_of(b1, n1) == employee_address_of(b2, n2)) == (b1 == b2 && n1 == n2),
        employee_address_of(b1, n1) != vesting_address_of(n2),
        employee_address_of(b1, n1) != treasury_address_of(n2),
{
}

} // verus!
