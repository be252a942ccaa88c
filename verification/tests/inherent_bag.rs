use aura_consensus::inherent::{InherentDataBag, InherentError};

#[test]
fn empty_bag_has_nothing() {
    let bag = InherentDataBag::new();
    assert_eq!(bag.len(), 0);
    assert!(!bag.contains_key(0));
    assert!(bag.get(0).is_none());
}

#[test]
fn inserted_fact_is_found_again() {
    let mut bag = InherentDataBag::new();
    bag.insert(7, vec![1, 2, 3]).unwrap();
    bag.insert(9, vec![4]).unwrap();
    assert_eq!(bag.len(), 2);
    assert!(bag.contains_key(7));
    assert!(bag.contains_key(9));
    assert_eq!(bag.get(7).unwrap(), &vec![1, 2, 3]);
    assert_eq!(bag.get(9).unwrap(), &vec![4]);
    assert!(bag.get(8).is_none());
}

#[test]
fn duplicate_key_is_rejected_and_keeps_the_first_fact() {
    let mut bag = InherentDataBag::new();
    bag.insert(7, vec![1]).unwrap();
    let rejected = bag.insert(7, vec![2]);
    assert_eq!(rejected, Err(InherentError::DuplicateKey));
    assert_eq!(bag.len(), 1);
    assert_eq!(bag.get(7).unwrap(), &vec![1]);
}

#[test]
fn merging_disjoint_bags_keeps_every_fact() {
    let mut left = InherentDataBag::new();
    left.insert(1, vec![10]).unwrap();
    left.insert(2, vec![20]).unwrap();
    let mut right = InherentDataBag::new();
    right.insert(3, vec![30]).unwrap();
    right.insert(4, vec![40]).unwrap();
    left.merge(right).unwrap();
    assert_eq!(left.len(), 4);
    assert_eq!(left.get(1).unwrap(), &vec![10]);
    assert_eq!(left.get(2).unwrap(), &vec![20]);
    assert_eq!(left.get(3).unwrap(), &vec![30]);
    assert_eq!(left.get(4).unwrap(), &vec![40]);
}

#[test]
fn merging_overlapping_bags_fails_and_changes_nothing() {
    let mut left = InherentDataBag::new();
    left.insert(1, vec![10]).unwrap();
    left.insert(2, vec![20]).unwrap();
    let mut right = InherentDataBag::new();
    right.insert(5, vec![50]).unwrap();
    right.insert(2, vec![99]).unwrap();
    let rejected = left.merge(right);
    assert_eq!(rejected, Err(InherentError::DuplicateKey));
    assert_eq!(left.len(), 2);
    assert_eq!(left.get(2).unwrap(), &vec![20]);
    assert!(!left.contains_key(5));
}
