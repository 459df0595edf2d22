use tokenvesting::address::AccountId;
use tokenvesting::address::Address;
use tokenvesting::address::DERIVED_BUMP;
use tokenvesting::address::derive_employee_account_address;
use tokenvesting::address::derive_treasury_address;
use tokenvesting::address::derive_vesting_account_address;
use tokenvesting::errors::VestingError;

fn id(bytes: &[u8]) -> AccountId {
    AccountId::new(bytes.to_vec())
}

/// A small deterministic pseudo-random name generator for sampling.
fn sample_name(seed: u64) -> Vec<u8> {
    let mut state = seed.wrapping_mul(6364136223846793005).wrapping_add(1442695040888963407);
    let len = (state % 20) as usize + 1;
    let mut name = Vec::new();
    for _ in 0..len {
        state = state.wrapping_mul(6364136223846793005).wrapping_add(1442695040888963407);
        name.push((state >> 33) as u8);
    }
    name
}

#[test]
fn rederiving_yields_the_same_address() {
    for seed in 0..200u64 {
        let name = sample_name(seed);
        let (a1, b1) = derive_vesting_account_address(&name).unwrap();
        let (a2, b2) = derive_vesting_account_address(&name).unwrap();
        assert!(a1.same_as(&a2));
        assert_eq!(b1, b2);
        let (t1, _) = derive_treasury_address(&name).unwrap();
        let (t2, _) = derive_treasury_address(&name).unwrap();
        assert!(t1.same_as(&t2));
        let (e1, _) = derive_employee_account_address(&id(b"alice"), &a1).unwrap();
        let (e2, _) = derive_employee_account_address(&id(b"alice"), &a2).unwrap();
        assert!(e1.same_as(&e2));
    }
}

#[test]
fn distinct_names_never_collide() {
    let names: Vec<Vec<u8>> = (0..120u64).map(sample_name).collect();
    for i in 0..names.len() {
        for j in 0..names.len() {
            if names[i] == names[j] {
                continue;
            }
            let (ai, _) = derive_vesting_account_address(&names[i]).unwrap();
            let (aj, _) = derive_vesting_account_address(&names[j]).unwrap();
            assert!(!ai.same_as(&aj));
            let (ti, _) = derive_treasury_address(&names[i]).unwrap();
            let (tj, _) = derive_treasury_address(&names[j]).unwrap();
            assert!(!ti.same_as(&tj));
        }
    }
}

#[test]
fn derivation_domains_are_separated() {
    let name = b"acme".to_vec();
    let (vesting, _) = derive_vesting_account_address(&name).unwrap();
    let (treasury, _) = derive_treasury_address(&name).unwrap();
    assert!(!vesting.same_as(&treasury));
    let (employee, _) = derive_employee_account_address(&id(b"acme"), &vesting).unwrap();
    assert!(!employee.same_as(&vesting));
    assert!(!employee.same_as(&treasury));
}

#[test]
fn distinct_beneficiaries_get_distinct_employee_addresses() {
    let (vesting, _) = derive_vesting_account_address(&b"acme".to_vec()).unwrap();
    let (e1, _) = derive_employee_account_address(&id(b"alice"), &vesting).unwrap();
    let (e2, _) = derive_employee_account_address(&id(b"bob"), &vesting).unwrap();
    assert!(!e1.same_as(&e2));
}

#[test]
fn overlong_seed_is_rejected() {
    let name = vec![7u8; 51];
    assert!(matches!(
        derive_vesting_account_address(&name),
        Err(VestingError::InvalidSeed)
    ));
    assert!(matches!(
        derive_treasury_address(&name),
        Err(VestingError::InvalidSeed)
    ));
    let exactly_50 = vec![7u8; 50];
    assert!(derive_vesting_account_address(&exactly_50).is_ok());
}

#[test]
fn derivation_reports_the_canonical_bump() {
    let (_, bump) = derive_vesting_account_address(&b"acme".to_vec()).unwrap();
    assert_eq!(bump, DERIVED_BUMP);
}

#[test]
fn employee_derivation_demands_a_vesting_address() {
    let not_vesting = Address::Account { id: id(b"somewhere") };
    assert!(matches!(
        derive_employee_account_address(&id(b"alice"), &not_vesting),
        Err(VestingError::AccountMismatch)
    ));
}
