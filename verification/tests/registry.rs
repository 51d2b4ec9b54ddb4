use soroban_sdk::testutils::EnvTestConfig;
use soroban_sdk::{Env, IntoVal, Val};
use stellar_grants::registry::{
    approve_reviewer, checked_approve_reviewer, checked_revoke_reviewer,
    contributor_count, contributor_register, get_contributors_page, is_approved_reviewer,
    register_contributor, registry_entry, registry_row, revoke_reviewer,
};
use stellar_grants::types::{
    Address, ContractError, Event, RegistryEntry, RegistryEntryType, RegistryRow,
};

const ADMIN: Address = 1;
const NOW: u64 = 1_700_000_000;

struct Ledger {
    env: Env,
    admin: Option<Address>,
    allowlist: soroban_sdk::Vec<Address>,
    index: soroban_sdk::Vec<RegistryRow>,
}

fn setup() -> Ledger {
    let env = Env::new_with_config(EnvTestConfig {
        capture_snapshot_at_drop: false,
    });
    let allowlist = soroban_sdk::Vec::new(&env);
    let index = soroban_sdk::Vec::new(&env);
    Ledger {
        env,
        admin: Some(ADMIN),
        allowlist,
        index,
    }
}

fn approve(ledger: &mut Ledger, admin: Address, address: Address) -> Option<Event> {
    approve_reviewer(&ledger.admin, &mut ledger.allowlist, &admin, &address)
        .ok()
        .unwrap()
}

fn revoke(ledger: &mut Ledger, admin: Address, address: Address) -> Event {
    revoke_reviewer(
        &ledger.env,
        &ledger.admin,
        &mut ledger.allowlist,
        &admin,
        &address,
    )
    .ok()
    .unwrap()
}

#[test]
fn test_register_contributor() {
    let mut ledger = setup();
    let addr = 10;
    let name = b"Alice".to_vec();

    let event = register_contributor(&mut ledger.index, &addr, &name, NOW)
        .ok()
        .unwrap();

    assert_eq!(contributor_count(&ledger.index), 1);
    let page = get_contributors_page(&ledger.index, 0, 10);
    assert_eq!(page.len(), 1);
    let entry = registry_entry(&page.get(0).unwrap());
    assert_eq!(entry.address, addr);
    assert_eq!(entry.entry_type, RegistryEntryType::Contributor);
    assert!(entry.is_active);
    assert_eq!(entry.registered_at, NOW);
    match event {
        Event::ContributorRegistered { address, name } => {
            assert_eq!(address, addr);
            assert_eq!(name, b"Alice".to_vec());
        }
        _ => panic!("the registration is not told"),
    }
}

/// Whether the index has an entry for an address.
fn registered(index: &soroban_sdk::Vec<RegistryRow>, address: Address) -> bool {
    index.iter().any(|row| row.0 == address)
}

fn register(ledger: &mut Ledger, address: Address, name: &[u8]) -> Result<Event, ContractError> {
    let known = registered(&ledger.index, address);
    contributor_register(known, &mut ledger.index, &address, &name.to_vec(), NOW).unwrap()
}

#[test]
#[should_panic]
fn test_register_contributor_duplicate() {
    let mut ledger = setup();
    register(&mut ledger, 10, b"Alice").ok().unwrap();
    register(&mut ledger, 10, b"Alice").ok().unwrap(); // duplicate
}

#[test]
fn a_registered_contributor_is_refused() {
    let mut ledger = setup();
    assert!(register(&mut ledger, 10, b"Alice").is_ok());
    assert!(register(&mut ledger, 11, b"Alice").is_ok());
    let result = register(&mut ledger, 10, b"Bob");
    assert!(matches!(result, Err(ContractError::AlreadyRegistered)));
    assert_eq!(contributor_count(&ledger.index), 2);
}

#[test]
fn test_register_multiple_contributors() {
    let mut ledger = setup();
    for (address, name) in [(10, b"A"), (11, b"B"), (12, b"C")] {
        register_contributor(&mut ledger.index, &address, &name.to_vec(), NOW)
            .ok()
            .unwrap();
    }
    assert_eq!(contributor_count(&ledger.index), 3);
}

#[test]
fn test_approve_reviewer() {
    let mut ledger = setup();
    let event = approve(&mut ledger, ADMIN, 5);
    assert!(is_approved_reviewer(&ledger.allowlist, &5));
    assert!(matches!(
        event,
        Some(Event::ReviewerApproved {
            reviewer: 5,
            admin: ADMIN
        })
    ));
}

#[test]
fn test_approve_reviewer_idempotent() {
    let mut ledger = setup();
    approve(&mut ledger, ADMIN, 5);
    let event = approve(&mut ledger, ADMIN, 5); // no-op
    assert!(is_approved_reviewer(&ledger.allowlist, &5));
    assert!(event.is_none());
    assert_eq!(ledger.allowlist.len(), 1);
}

#[test]
#[should_panic]
fn test_approve_reviewer_unauthorized() {
    let mut ledger = setup();
    approve(&mut ledger, 99, 5);
}

#[test]
fn test_revoke_reviewer() {
    let mut ledger = setup();
    approve(&mut ledger, ADMIN, 5);
    assert!(is_approved_reviewer(&ledger.allowlist, &5));

    let event = revoke(&mut ledger, ADMIN, 5);
    assert!(!is_approved_reviewer(&ledger.allowlist, &5));
    assert!(matches!(
        event,
        Event::ReviewerRevoked {
            reviewer: 5,
            admin: ADMIN
        }
    ));
}

#[test]
#[should_panic]
fn test_revoke_reviewer_not_found() {
    let mut ledger = setup();
    revoke(&mut ledger, ADMIN, 5);
}

#[test]
#[should_panic]
fn test_revoke_reviewer_unauthorized() {
    let mut ledger = setup();
    approve(&mut ledger, ADMIN, 5);
    revoke(&mut ledger, 99, 5);
}

#[test]
fn test_is_approved_reviewer_returns_false_for_unknown() {
    let ledger = setup();
    assert!(!is_approved_reviewer(&ledger.allowlist, &5));
}

#[test]
fn test_pagination() {
    let mut ledger = setup();
    for address in 0..5 {
        register_contributor(&mut ledger.index, &address, &b"C".to_vec(), NOW)
            .ok()
            .unwrap();
    }
    assert_eq!(contributor_count(&ledger.index), 5);

    // Page 0: items 0-2
    let page0 = get_contributors_page(&ledger.index, 0, 3);
    assert_eq!(page0.len(), 3);

    // Page 1: items 3-4
    let page1 = get_contributors_page(&ledger.index, 3, 3);
    assert_eq!(page1.len(), 2);
    assert_eq!(registry_entry(&page1.get(0).unwrap()).address, 3);
    assert_eq!(registry_entry(&page1.get(1).unwrap()).address, 4);

    // Offset beyond count
    let empty = get_contributors_page(&ledger.index, 10, 3);
    assert_eq!(empty.len(), 0);
    let last = get_contributors_page(&ledger.index, u32::MAX, u32::MAX);
    assert_eq!(last.len(), 0);
    let all = get_contributors_page(&ledger.index, 1, u32::MAX);
    assert_eq!(all.len(), 4);
}

#[test]
fn test_contributor_count_empty() {
    let ledger = setup();
    assert_eq!(contributor_count(&ledger.index), 0);
}

#[test]
fn requests_of_others_are_refused() {
    let mut ledger = setup();
    approve(&mut ledger, ADMIN, 5);
    let result = approve_reviewer(&ledger.admin, &mut ledger.allowlist, &99, &6);
    assert!(matches!(result, Err(ContractError::Unauthorized)));
    let result = revoke_reviewer(&ledger.env, &ledger.admin, &mut ledger.allowlist, &99, &5);
    assert!(matches!(result, Err(ContractError::Unauthorized)));
    // Without an admin nobody is one
    let result = approve_reviewer(&None, &mut ledger.allowlist, &ADMIN, &6);
    assert!(matches!(result, Err(ContractError::Unauthorized)));
    // Not on the list
    let result = revoke_reviewer(&ledger.env, &ledger.admin, &mut ledger.allowlist, &ADMIN, &6);
    assert!(matches!(result, Err(ContractError::InvalidInput)));
    assert_eq!(ledger.allowlist.len(), 1);
    assert!(is_approved_reviewer(&ledger.allowlist, &5));
}

#[test]
fn revoking_keeps_the_others_in_order() {
    let mut ledger = setup();
    for address in [5, u64::MAX, 6, 7] {
        approve(&mut ledger, ADMIN, address);
    }
    revoke(&mut ledger, ADMIN, 6);
    let left: Vec<Address> = ledger.allowlist.iter().collect();
    assert_eq!(left, vec![5, u64::MAX, 7]);
    // Approving and revoking again is where it was
    approve(&mut ledger, ADMIN, 6);
    revoke(&mut ledger, ADMIN, 6);
    let left: Vec<Address> = ledger.allowlist.iter().collect();
    assert_eq!(left, vec![5, u64::MAX, 7]);
    // All occurrences go
    ledger.allowlist.push_back(5);
    revoke(&mut ledger, ADMIN, 5);
    let left: Vec<Address> = ledger.allowlist.iter().collect();
    assert_eq!(left, vec![u64::MAX, 7]);
}

#[test]
fn a_list_that_cannot_be_read_is_left_alone() {
    let mut ledger = setup();
    let mut raw: soroban_sdk::Vec<Val> = soroban_sdk::Vec::new(&ledger.env);
    raw.push_back(5u64.into_val(&ledger.env));
    raw.push_back(5u32.into_val(&ledger.env));
    ledger.allowlist = raw.to_val().into_val(&ledger.env);
    let env = ledger.env.clone();
    let result = checked_revoke_reviewer(&env, &ledger.admin, &mut ledger.allowlist, &ADMIN, &5);
    assert!(result.is_none());
    assert_eq!(ledger.allowlist.len(), 2);
    // Who may not revoke is refused all the same
    let result = checked_revoke_reviewer(&env, &ledger.admin, &mut ledger.allowlist, &99, &5);
    assert!(matches!(result, Some(Err(ContractError::Unauthorized))));
    // Searching and appending do not read
    assert!(is_approved_reviewer(&ledger.allowlist, &5));
    let result = checked_approve_reviewer(&ledger.admin, &mut ledger.allowlist, &ADMIN, &6);
    assert!(matches!(result, Some(Ok(Some(_)))));
    assert_eq!(ledger.allowlist.len(), 3);
}

#[test]
fn checked_requests_do_what_unchecked_ones_do() {
    let mut ledger = setup();
    let result = checked_approve_reviewer(&ledger.admin, &mut ledger.allowlist, &ADMIN, &6);
    assert!(matches!(result, Some(Ok(Some(_)))));
    let env = ledger.env.clone();
    let result = checked_revoke_reviewer(&env, &ledger.admin, &mut ledger.allowlist, &ADMIN, &6);
    assert!(matches!(result, Some(Ok(_))));
    assert_eq!(ledger.allowlist.len(), 0);
}

#[test]
fn rows_keep_entries() {
    let entry = RegistryEntry {
        address: 5,
        registered_at: 6,
        is_active: false,
        entry_type: RegistryEntryType::Other(0),
    };
    assert_eq!(registry_entry(&registry_row(&entry)), entry);
    let row: RegistryRow = (5, 6, true, None);
    assert_eq!(registry_row(&registry_entry(&row)), row);
    // The host keeps rows as they are
    let mut ledger = setup();
    ledger.index.push_back(registry_row(&entry));
    ledger.index.push_back(row);
    let page = get_contributors_page(&ledger.index, 0, 2);
    assert_eq!(registry_entry(&page.get(0).unwrap()), entry);
    assert_eq!(page.get(1).unwrap(), row);
}
