use std::sync::atomic::AtomicU32;
use std::sync::atomic::Ordering;

use lib::ids::admit_id;
use lib::ids::allocate_new_id;
use lib::ids::claim_id_weak;
use lib::ids::try_increment;
use lib::ids::Claim;
use lib::ids::IdError;
use lib::ids::MAX_IDS;

#[test]
fn allocate_hands_out_ids_in_order() {
    let next = AtomicU32::new(0);
    assert_eq!(allocate_new_id(&next), Ok(0));
    assert_eq!(allocate_new_id(&next), Ok(1));
    assert_eq!(allocate_new_id(&next), Ok(2));
}

#[test]
fn allocate_refuses_after_max_and_rolls_back() {
    let next = AtomicU32::new(0);
    for i in 0..MAX_IDS {
        assert_eq!(allocate_new_id(&next), Ok(i));
    }
    assert_eq!(allocate_new_id(&next), Err(IdError::TooManyIds));
    assert_eq!(allocate_new_id(&next), Err(IdError::TooManyIds));
    assert_eq!(next.load(Ordering::Relaxed), 1000);
}

#[test]
fn admit_decides_by_bound() {
    assert_eq!(admit_id(0), Ok(0));
    assert_eq!(admit_id(999), Ok(999));
    assert_eq!(admit_id(1000), Err(IdError::TooManyIds));
    assert_eq!(admit_id(u32::MAX), Err(IdError::TooManyIds));
}

#[test]
fn claim_weak_claims_or_reports_current() {
    let next = AtomicU32::new(5);
    match claim_id_weak(&next, 3) {
        Ok(Claim::Contended(v)) => assert_eq!(v, 5),
        other => panic!("unexpected {:?}", other),
    }
    assert_eq!(next.load(Ordering::Relaxed), 5);
    let mut id = 5;
    loop {
        match claim_id_weak(&next, id) {
            Ok(Claim::Claimed(got)) => {
                assert_eq!(got, 5);
                break;
            }
            Ok(Claim::Contended(v)) => id = v,
            Err(e) => panic!("unexpected {:?}", e),
        }
    }
    assert_eq!(next.load(Ordering::Relaxed), 6);
}

#[test]
fn claim_weak_never_passes_max() {
    let next = AtomicU32::new(1000);
    assert_eq!(claim_id_weak(&next, 1000), Err(IdError::TooManyIds));
    assert_eq!(next.load(Ordering::Relaxed), 1000);
}

#[test]
fn increment_step() {
    let counter = AtomicU32::new(0);
    assert_eq!(try_increment(&counter, 0), Ok(()));
    assert_eq!(try_increment(&counter, 0), Err(1));
    assert_eq!(try_increment(&counter, 1), Ok(()));
    assert_eq!(counter.load(Ordering::Relaxed), 2);
}

#[test]
fn successor_adds_one() {
    assert_eq!(lib::ids::successor(0), 1);
    assert_eq!(lib::ids::successor(u32::MAX - 1), u32::MAX);
}
