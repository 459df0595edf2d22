use tokenvesting::address::AccountId;
use tokenvesting::address::Address;
use tokenvesting::address::DERIVED_BUMP;
use tokenvesting::errors::VestingError;
use tokenvesting::ledger::ClaimTokens;
use tokenvesting::ledger::CreateEmployeeAccount;
use tokenvesting::ledger::CreateVestingAccount;
use tokenvesting::ledger::VestingLedger;
use tokenvesting::ledger::verify_claim_accounts;

fn id(bytes: &[u8]) -> AccountId {
    AccountId::new(bytes.to_vec())
}

/// A ledger with the tenant `acme` (owner `owner`, mint `mint`) and an
/// employee record for `alice`: start=0, cliff=100, end=1000, total=1000.
fn acme_ledger() -> VestingLedger {
    let mut ledger = VestingLedger::new();
    let vesting_account = ledger
        .create_vesting_account(
            CreateVestingAccount { signer: id(b"owner"), mint: id(b"mint") },
            b"acme".to_vec(),
        )
        .unwrap();
    ledger
        .create_employee_account(
            CreateEmployeeAccount {
                owner: id(b"owner"),
                beneficiary: id(b"alice"),
                vesting_account,
            },
            0,
            1000,
            1000,
            100,
        )
        .unwrap();
    ledger
}

/// The accounts a well-behaved claim by `beneficiary` against tenant
/// `name` supplies.
fn claim_accounts(name: &[u8], beneficiary: &[u8]) -> ClaimTokens {
    ClaimTokens {
        beneficiary: id(beneficiary),
        employee_account: Address::Employee {
            beneficiary: id(beneficiary),
            company_name: name.to_vec(),
        },
        vesting_account: Address::Vesting { company_name: name.to_vec() },
        mint: id(b"mint"),
        treasury_token_account: Address::Treasury { company_name: name.to_vec() },
    }
}

#[test]
fn create_vesting_account_records_the_tenant() {
    let mut ledger = VestingLedger::new();
    let addr = ledger
        .create_vesting_account(
            CreateVestingAccount { signer: id(b"owner"), mint: id(b"mint") },
            b"acme".to_vec(),
        )
        .unwrap();
    assert!(addr.same_as(&Address::Vesting { company_name: b"acme".to_vec() }));
    assert_eq!(ledger.vesting_accounts.len(), 1);
    let record = &ledger.vesting_accounts[0];
    assert!(record.owner.same_as(&id(b"owner")));
    assert!(record.mint.same_as(&id(b"mint")));
    assert_eq!(record.company_name, b"acme".to_vec());
    assert!(record
        .treasury_token_account
        .same_as(&Address::Treasury { company_name: b"acme".to_vec() }));
    assert_eq!(record.treasury_bump, DERIVED_BUMP);
    assert_eq!(record.bump, DERIVED_BUMP);
}

#[test]
fn overlong_tenant_name_is_rejected() {
    let mut ledger = VestingLedger::new();
    let r = ledger.create_vesting_account(
        CreateVestingAccount { signer: id(b"owner"), mint: id(b"mint") },
        vec![7u8; 51],
    );
    assert!(matches!(r, Err(VestingError::InvalidName)));
    assert_eq!(ledger.vesting_accounts.len(), 0);
}

#[test]
fn duplicate_tenant_is_rejected() {
    let mut ledger = acme_ledger();
    let r = ledger.create_vesting_account(
        CreateVestingAccount { signer: id(b"other"), mint: id(b"mint") },
        b"acme".to_vec(),
    );
    assert!(matches!(r, Err(VestingError::DuplicateTenant)));
    assert_eq!(ledger.vesting_accounts.len(), 1);
}

#[test]
fn create_employee_account_records_the_schedule() {
    let ledger = acme_ledger();
    assert_eq!(ledger.employee_accounts.len(), 1);
    let record = &ledger.employee_accounts[0];
    assert!(record.beneficiary.same_as(&id(b"alice")));
    assert_eq!(record.start_time, 0);
    assert_eq!(record.cliff_time, 100);
    assert_eq!(record.end_time, 1000);
    assert_eq!(record.total_amount, 1000);
    assert_eq!(record.total_withdrawn, 0);
    assert_eq!(record.bump, DERIVED_BUMP);
    assert!(record
        .vesting_account
        .same_as(&Address::Vesting { company_name: b"acme".to_vec() }));
}

#[test]
fn non_owner_cannot_create_employee_accounts() {
    let mut ledger = acme_ledger();
    let r = ledger.create_employee_account(
        CreateEmployeeAccount {
            owner: id(b"mallory"),
            beneficiary: id(b"mallory"),
            vesting_account: Address::Vesting { company_name: b"acme".to_vec() },
        },
        0,
        10,
        100,
        0,
    );
    assert!(matches!(r, Err(VestingError::Unauthorized)));
    assert_eq!(ledger.employee_accounts.len(), 1);
}

#[test]
fn duplicate_employee_is_rejected() {
    let mut ledger = acme_ledger();
    let r = ledger.create_employee_account(
        CreateEmployeeAccount {
            owner: id(b"owner"),
            beneficiary: id(b"alice"),
            vesting_account: Address::Vesting { company_name: b"acme".to_vec() },
        },
        0,
        10,
        100,
        0,
    );
    assert!(matches!(r, Err(VestingError::DuplicateEmployee)));
    assert_eq!(ledger.employee_accounts.len(), 1);
}

#[test]
fn employee_creation_demands_an_existing_tenant() {
    let mut ledger = acme_ledger();
    let r = ledger.create_employee_account(
        CreateEmployeeAccount {
            owner: id(b"owner"),
            beneficiary: id(b"bob"),
            vesting_account: Address::Vesting { company_name: b"ghost".to_vec() },
        },
        0,
        10,
        100,
        0,
    );
    assert!(matches!(r, Err(VestingError::AccountMismatch)));
    assert_eq!(ledger.employee_accounts.len(), 1);
}

#[test]
fn claims_before_the_cliff_are_refused_twice() {
    let mut ledger = acme_ledger();
    let accounts = claim_accounts(b"acme", b"alice");
    let r1 = ledger.claim_tokens(&accounts, &b"acme".to_vec(), 50, true);
    assert!(matches!(r1, Err(VestingError::NothingToClaim)));
    let r2 = ledger.claim_tokens(&accounts, &b"acme".to_vec(), 99, true);
    assert!(matches!(r2, Err(VestingError::NothingToClaim)));
    assert_eq!(ledger.employee_accounts[0].total_withdrawn, 0);
}

#[test]
fn successful_claims_accumulate_to_the_entitlement() {
    let mut ledger = acme_ledger();
    let accounts = claim_accounts(b"acme", b"alice");
    assert_eq!(ledger.claim_tokens(&accounts, &b"acme".to_vec(), 550, true), Ok(550));
    assert_eq!(ledger.employee_accounts[0].total_withdrawn, 550);
    // same instant again: nothing new has vested
    assert!(matches!(
        ledger.claim_tokens(&accounts, &b"acme".to_vec(), 550, true),
        Err(VestingError::NothingToClaim)
    ));
    assert_eq!(ledger.claim_tokens(&accounts, &b"acme".to_vec(), 1000, true), Ok(450));
    assert_eq!(ledger.employee_accounts[0].total_withdrawn, 1000);
}

#[test]
fn fully_withdrawn_records_refuse_every_further_claim() {
    let mut ledger = acme_ledger();
    let accounts = claim_accounts(b"acme", b"alice");
    assert_eq!(ledger.claim_tokens(&accounts, &b"acme".to_vec(), 2000, true), Ok(1000));
    assert_eq!(ledger.employee_accounts[0].total_withdrawn, 1000);
    for now in [2001, 10_000, i64::MAX] {
        assert!(matches!(
            ledger.claim_tokens(&accounts, &b"acme".to_vec(), now, true),
            Err(VestingError::NothingToClaim)
        ));
    }
    assert_eq!(ledger.employee_accounts[0].total_withdrawn, 1000);
}

#[test]
fn failed_transfer_leaves_the_record_untouched() {
    let mut ledger = acme_ledger();
    let accounts = claim_accounts(b"acme", b"alice");
    let r = ledger.claim_tokens(&accounts, &b"acme".to_vec(), 550, false);
    assert!(matches!(r, Err(VestingError::TransferFailed)));
    let record = &ledger.employee_accounts[0];
    assert_eq!(record.total_withdrawn, 0);
    assert_eq!(record.total_amount, 1000);
    assert_eq!(record.start_time, 0);
    assert_eq!(record.cliff_time, 100);
    assert_eq!(record.end_time, 1000);
    // and the exact same claim goes through afterwards
    assert_eq!(ledger.claim_tokens(&accounts, &b"acme".to_vec(), 550, true), Ok(550));
}

#[test]
fn claim_with_an_overlong_name_is_refused() {
    let mut ledger = acme_ledger();
    let long_name = vec![7u8; 51];
    let accounts = claim_accounts(&long_name, b"alice");
    assert!(matches!(
        ledger.claim_tokens(&accounts, &long_name, 550, true),
        Err(VestingError::InvalidSeed)
    ));
}

#[test]
fn claim_against_an_unknown_tenant_is_refused() {
    let mut ledger = acme_ledger();
    let accounts = claim_accounts(b"ghost", b"alice");
    assert!(matches!(
        ledger.claim_tokens(&accounts, &b"ghost".to_vec(), 550, true),
        Err(VestingError::AccountMismatch)
    ));
}

#[test]
fn claim_with_mismatched_supplied_addresses_is_refused() {
    let mut ledger = acme_ledger();
    let mut accounts = claim_accounts(b"acme", b"alice");
    accounts.vesting_account = Address::Vesting { company_name: b"evil".to_vec() };
    assert!(matches!(
        ledger.claim_tokens(&accounts, &b"acme".to_vec(), 550, true),
        Err(VestingError::AccountMismatch)
    ));
    assert_eq!(ledger.employee_accounts[0].total_withdrawn, 0);
}

#[test]
fn claim_with_a_foreign_mint_is_refused_as_linkage() {
    let mut ledger = acme_ledger();
    let mut accounts = claim_accounts(b"acme", b"alice");
    accounts.mint = id(b"wrong-mint");
    assert!(matches!(
        ledger.claim_tokens(&accounts, &b"acme".to_vec(), 550, true),
        Err(VestingError::LinkageMismatch)
    ));
    assert_eq!(ledger.employee_accounts[0].total_withdrawn, 0);
}

#[test]
fn claim_with_a_foreign_treasury_is_refused_as_linkage() {
    let mut ledger = acme_ledger();
    let mut accounts = claim_accounts(b"acme", b"alice");
    accounts.treasury_token_account = Address::Treasury { company_name: b"evil".to_vec() };
    assert!(matches!(
        ledger.claim_tokens(&accounts, &b"acme".to_vec(), 550, true),
        Err(VestingError::LinkageMismatch)
    ));
}

#[test]
fn a_stranger_cannot_claim_someone_elses_record() {
    let mut ledger = acme_ledger();
    // mallory signs as themselves but points at alice's record
    let mut accounts = claim_accounts(b"acme", b"mallory");
    accounts.employee_account = Address::Employee {
        beneficiary: id(b"alice"),
        company_name: b"acme".to_vec(),
    };
    assert!(matches!(
        ledger.claim_tokens(&accounts, &b"acme".to_vec(), 550, true),
        Err(VestingError::AccountMismatch)
    ));
    assert_eq!(ledger.employee_accounts[0].total_withdrawn, 0);
}

#[test]
fn account_checks_refuse_a_signer_beneficiary_mismatch() {
    let ledger = acme_ledger();
    let mut accounts = claim_accounts(b"acme", b"alice");
    // a forged signer identity that is not the record's beneficiary
    accounts.beneficiary = id(b"mallory");
    accounts.employee_account = Address::Employee {
        beneficiary: id(b"mallory"),
        company_name: b"acme".to_vec(),
    };
    let r = verify_claim_accounts(
        &ledger.vesting_accounts[0],
        &ledger.employee_accounts[0],
        &accounts,
        &b"acme".to_vec(),
    );
    assert_eq!(r, Some(VestingError::Unauthorized));
}

#[test]
fn two_tenants_and_two_beneficiaries_stay_apart() {
    let mut ledger = acme_ledger();
    let globex = ledger
        .create_vesting_account(
            CreateVestingAccount { signer: id(b"gown"), mint: id(b"mint") },
            b"globex".to_vec(),
        )
        .unwrap();
    ledger
        .create_employee_account(
            CreateEmployeeAccount {
                owner: id(b"gown"),
                beneficiary: id(b"alice"),
                vesting_account: globex,
            },
            0,
            100,
            400,
            0,
        )
        .unwrap();
    let acme_claim = claim_accounts(b"acme", b"alice");
    assert_eq!(ledger.claim_tokens(&acme_claim, &b"acme".to_vec(), 550, true), Ok(550));
    let globex_claim = claim_accounts(b"globex", b"alice");
    assert_eq!(ledger.claim_tokens(&globex_claim, &b"globex".to_vec(), 50, true), Ok(200));
    assert_eq!(ledger.employee_accounts[0].total_withdrawn, 550);
    assert_eq!(ledger.employee_accounts[1].total_withdrawn, 200);
}
