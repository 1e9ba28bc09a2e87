use crdt_core::ops_based::Payload;

#[test]
fn ops_based_test_query() {
    let payload = Payload::new(0);
    let res = payload.query(|x: &i32| Some(x + 1)).unwrap();
    assert_eq!(res, Some(1));
}

#[test]
fn ops_based_test_update() {
    let mut payload = Payload::new(0);
    let at_source = |x: &i32, y: &i32| Some(*x + *y);
    let downstream = |x: &i32, y: &i32| *x + *y;
    let res = payload.update(&1, at_source, downstream).unwrap().unwrap();
    assert_eq!(res, 1);
}

#[test]
fn ops_based_update_changes_value() {
    let mut payload = Payload::new(0);
    payload.update(&5, |x: &i32, y: &i32| Some(*x + *y), |x: &i32, y: &i32| *x + *y).unwrap();
    assert_eq!(*payload.value(), 5);
}

#[test]
fn ops_based_at_source_has_no_side_effect() {
    let mut payload = Payload::new(7);
    // an atSource whose precondition fails produces no operation and, as
    // always, leaves the value to downstream alone
    let res = payload.update(&1, |_x: &i32, _y: &i32| None, |x: &i32, _y: &i32| *x).unwrap();
    assert_eq!(res, None);
    assert_eq!(*payload.value(), 7);
}

#[test]
fn two_replicas_converge_on_one_update() {
    // an integer register: replica a generates the operation, replica b
    // applies it downstream; a query over either replica then agrees
    let mut replica_a = Payload::new(0);
    let op = replica_a
        .update(&1, |x: &i32, y: &i32| Some(*x + *y), |x: &i32, y: &i32| *x + *y)
        .unwrap()
        .unwrap();
    assert_eq!(op, 1);
    assert_eq!(*replica_a.value(), 1);

    let mut replica_b = Payload::new(0);
    replica_b.update(&op, |_x: &i32, _y: &i32| None, |x: &i32, y: &i32| *x + *y).unwrap();
    assert_eq!(*replica_b.value(), 1);

    assert_eq!(replica_a.query(|x: &i32| Some(x + 1)).unwrap(), Some(2));
    assert_eq!(replica_b.query(|x: &i32| Some(x + 1)).unwrap(), Some(2));
}

#[test]
fn commuting_downstream_order_irrelevant() {
    // the same two commuting downstream operations, in either order, leave
    // independent replicas at the same value
    let add = |x: &i32, y: &i32| *x + *y;

    let mut replica_a = Payload::new(0);
    replica_a.update(&2, |_x: &i32, _y: &i32| None, add).unwrap();
    replica_a.update(&3, |_x: &i32, _y: &i32| None, add).unwrap();

    let mut replica_b = Payload::new(0);
    replica_b.update(&3, |_x: &i32, _y: &i32| None, add).unwrap();
    replica_b.update(&2, |_x: &i32, _y: &i32| None, add).unwrap();

    assert_eq!(replica_a.value(), replica_b.value());
}
