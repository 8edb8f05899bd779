//! Behaviour of the versioned store, driven from outside with the real
//! storage backend linked.

use near_sdk::test_utils::test_env::alice;
use near_sdk::test_utils::test_env::bob;

use versioned_extended::Balances;
use versioned_extended::BalancesV1;
use versioned_extended::ContractV0;
use versioned_extended::FunderLedger;
use versioned_extended::RecordError;
use versioned_extended::RecordMap;
use versioned_extended::VersionedBalances;
use versioned_extended::VersionedContract;

#[test]
fn basic() {
    let mut contract = VersionedContract::default();
    contract.deposit(bob(), 8);

    contract.deposit(alice(), 10);

    contract.deposit(bob(), 20);

    assert_eq!(contract.get_deposit(&alice()), Some(&10));
    assert_eq!(contract.get_deposit(&bob()), Some(&28));
    assert_eq!(contract.get_nonce(), 3);
}

#[test]
fn with_upgrade() {
    let mut contract = {
        let mut funders = FunderLedger::new();
        funders.insert(bob(), 8);
        let hashes = RecordMap::new();

        VersionedContract::V0(ContractV0 { funders, hashes })
    };
    assert_eq!(contract.get_nonce(), 0);
    assert!(matches!(contract, VersionedContract::V0(_)));

    // upgrade on-fly
    let k = "some_key".to_string();
    contract.add_hash(k.clone());
    assert_eq!(
        contract.get_balance(k).unwrap(),
        BalancesV1 {
            deposited: 1,
            total: 1,
            earned: 0
        }
    );
    // end

    contract.deposit(alice(), 1000);

    assert!(matches!(contract, VersionedContract::V1(_)));
    assert_eq!(contract.get_nonce(), 1);
    assert_eq!(contract.get_deposit(&alice()), Some(&1000));
    assert_eq!(contract.get_deposit(&bob()), Some(&8));
}

#[test]
fn upgrade_is_idempotent_on_observable_fields() {
    let v = VersionedBalances::V0(Balances {
        deposited: 5,
        total: 9,
    });
    let once = v.upgrade();
    let twice = once.upgrade();
    assert_eq!(once.get_balance(), twice.get_balance());
}

#[test]
fn upgrade_preserves_fields_and_seeds_earned() {
    let v = VersionedBalances::V0(Balances {
        deposited: 5,
        total: 9,
    });
    assert_eq!(
        v.upgrade(),
        VersionedBalances::V1(BalancesV1 {
            deposited: 5,
            total: 9,
            earned: 0
        })
    );
}

#[test]
fn need_upgrade_reads_the_tag() {
    let v0 = VersionedBalances::V0(Balances {
        deposited: 1,
        total: 2,
    });
    let v1 = VersionedBalances::V1(BalancesV1 {
        deposited: 1,
        total: 2,
        earned: 3,
    });
    assert!(v0.need_upgrade());
    assert!(!v1.need_upgrade());
}

#[test]
fn latest_projection_defaults_missing_fields() {
    let v0 = VersionedBalances::V0(Balances {
        deposited: 7,
        total: 11,
    });
    assert_eq!(
        v0.get_balance(),
        BalancesV1 {
            deposited: 7,
            total: 11,
            earned: 0
        }
    );
}

#[test]
fn get_balance_missing_key_is_an_error() {
    let mut contract = VersionedContract::default();
    assert_eq!(
        contract.get_balance("absent".to_string()),
        Err(RecordError::KeyNotFound)
    );
}

#[test]
fn record_upgrade_is_written_back_once() {
    let mut contract = VersionedContract::V0(ContractV0 {
        funders: FunderLedger::new(),
        hashes: RecordMap::new(),
    });
    contract.add_hash("k".to_string());

    let first = contract.get_balance("k".to_string()).unwrap();
    assert_eq!(
        first,
        BalancesV1 {
            deposited: 1,
            total: 1,
            earned: 0
        }
    );

    // The stored record now carries the latest tag: the upgrade was paid.
    match &contract {
        VersionedContract::V0(c) => {
            let stored = c.hashes.get(&"k".to_string()).unwrap();
            assert!(matches!(stored, VersionedBalances::V1(_)));
        }
        VersionedContract::V1(_) => panic!("a record read must not retag the root"),
    }

    let second = contract.get_balance("k".to_string()).unwrap();
    assert_eq!(second, first);
}

#[test]
fn stale_root_reads_nonce_zero_without_upgrading() {
    let mut contract = VersionedContract::V0(ContractV0 {
        funders: FunderLedger::new(),
        hashes: RecordMap::new(),
    });
    assert_eq!(contract.get_nonce(), 0);
    assert_eq!(contract.get_nonce(), 0);
    assert!(matches!(contract, VersionedContract::V0(_)));

    contract.deposit(alice(), 1);
    assert!(matches!(contract, VersionedContract::V1(_)));
    assert_eq!(contract.get_nonce(), 1);
}

#[test]
fn funder_accumulation_interleaved() {
    let mut contract = VersionedContract::default();
    contract.deposit(alice(), 3);
    contract.deposit(bob(), 100);
    contract.deposit(alice(), 4);
    contract.deposit(bob(), 200);
    contract.deposit(alice(), 5);
    assert_eq!(contract.get_deposit(&alice()), Some(&12));
    assert_eq!(contract.get_deposit(&bob()), Some(&300));
}

#[test]
fn fresh_root_is_empty_and_current() {
    let contract = VersionedContract::default();
    assert!(matches!(contract, VersionedContract::V1(_)));
    assert_eq!(contract.get_nonce(), 0);
    assert_eq!(contract.get_deposit(&alice()), None);
}

#[test]
fn record_map_insert_overwrites() {
    let mut records = RecordMap::new();
    let k = "id".to_string();
    assert!(records.get(&k).is_none());
    records.insert(
        k.clone(),
        VersionedBalances::V0(Balances {
            deposited: 1,
            total: 1,
        }),
    );
    records.insert(
        k.clone(),
        VersionedBalances::V1(BalancesV1 {
            deposited: 2,
            total: 3,
            earned: 4,
        }),
    );
    assert_eq!(
        records.get(&k),
        Some(&VersionedBalances::V1(BalancesV1 {
            deposited: 2,
            total: 3,
            earned: 4
        }))
    );
    assert!(records.get(&"other".to_string()).is_none());
}
