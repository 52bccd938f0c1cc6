use qubit_id::Id;

#[test]
fn default_id_is_zero() {
    assert_eq!(Id::default(), Id::new(0));
    assert_eq!(Id::default().value(), 0);
}

#[test]
fn ids_order_by_value() {
    assert!(Id::new(1) < Id::new(2));
    assert!(Id::new(u64::MAX) > Id::new(0));
    assert_eq!(Id::new(7).partial_cmp(&Id::new(7)), Some(std::cmp::Ordering::Equal));
    assert_eq!(Id::new(3).cmp(&Id::new(9)), std::cmp::Ordering::Less);
    let mut ids = vec![Id::new(5), Id::new(1), Id::new(3)];
    ids.sort();
    assert_eq!(ids, vec![Id::new(1), Id::new(3), Id::new(5)]);
}
