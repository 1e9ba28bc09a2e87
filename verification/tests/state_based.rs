use crdt_core::state_based::Payload;
use crdt_core::state_based::Semilattice;

#[test]
fn test_compare() {
    let value1: i32 = 1;
    let value2: i32 = 2;
    assert!(value1.compare(&value2));
    assert!(!value2.compare(&value1));
}

#[test]
fn test_merge() {
    let value1: i32 = 2;
    let value2: i32 = 4;
    assert_eq!(value1.merge(&value2), 4);
    assert_eq!(value2.merge(&value1), 4);
}

#[test]
fn state_based_test_query() {
    let payload = Payload::new(1);
    let query = |value: &i32| Some(*value + 1);
    assert_eq!(payload.query(query).unwrap().unwrap(), 2);
}

#[test]
fn state_based_test_update() {
    let mut payload = Payload::new(1);
    let update = |value: &i32| (*value + 1, Some(*value + 1));
    assert_eq!(payload.update(update).unwrap().unwrap(), 2);
    assert_eq!(*payload.value(), 2);
}

#[test]
fn merge_idempotent() {
    let values: [i32; 4] = [i32::MIN, -3, 0, i32::MAX];
    for x in values {
        assert_eq!(x.merge(&x), x);
    }
}

#[test]
fn merge_commutative() {
    assert_eq!(7i32.merge(&-2), (-2i32).merge(&7));
    assert_eq!(i32::MIN.merge(&i32::MAX), i32::MAX.merge(&i32::MIN));
    assert_eq!(i32::MIN.merge(&i32::MAX), i32::MAX);
}

#[test]
fn merge_associative() {
    let (x, y, z): (i32, i32, i32) = (5, -1, 3);
    assert_eq!(x.merge(&y).merge(&z), x.merge(&y.merge(&z)));
    assert_eq!(x.merge(&y).merge(&z), 5);
}

#[test]
fn compare_iff_merge_right() {
    let (x, y): (i32, i32) = (2, 4);
    assert_eq!(x.compare(&y), x.merge(&y) == y);
    assert_eq!(y.compare(&x), y.merge(&x) == x);
    assert_eq!(x.compare(&x), x.merge(&x) == x);
}

#[test]
fn duplicated_and_reordered_merges_converge() {
    // at-least-once, unordered delivery: merging the same shipped value
    // twice, and merging two values in either order, agree
    let state: i32 = 1;
    let update1: i32 = 3;
    let update2: i32 = 2;
    assert_eq!(state.merge(&update1).merge(&update1), state.merge(&update1));
    assert_eq!(
        state.merge(&update1).merge(&update2),
        state.merge(&update2).merge(&update1)
    );
}

#[test]
fn two_replicas_converge_by_merge() {
    // replica a holds 2, replica b holds 4; each merges the other's value
    // and both end at 4
    let replica_a = Payload::new(2);
    let replica_b = Payload::new(4);
    let merged_at_a = replica_a.value().merge(replica_b.value());
    let merged_at_b = replica_b.value().merge(replica_a.value());
    assert_eq!(merged_at_a, 4);
    assert_eq!(merged_at_b, 4);
    assert_eq!(merged_at_a, merged_at_b);
}

#[test]
fn update_strengthens_value() {
    let mut payload = Payload::new(3);
    // a max-register write: take the larger of the held and the given value
    let update = |value: &i32| (if *value >= 10 { *value } else { 10 }, None);
    assert_eq!(payload.update(update).unwrap(), None);
    assert_eq!(*payload.value(), 10);
}
