use store_vec::{first_duplicate, get_items, sample_items, Data, Item, Op, StoreError};

fn item(id: u128, value: &str) -> Item {
    Item::new(id, value.to_string())
}

fn contents(d: &Data) -> Vec<(u128, String)> {
    d.items().iter().map(|i| (i.id, i.value.clone())).collect()
}

fn pairs(v: &[(u128, &str)]) -> Vec<(u128, String)> {
    v.iter().map(|(id, s)| (*id, s.to_string())).collect()
}

fn great_amasing() -> Data {
    Data::new(vec![item(1, "great"), item(2, "amasing")])
}

#[test]
fn scenario_add_mutate_delete() {
    let mut d = great_amasing();
    assert_eq!(d.add_item(3), Ok(()));
    assert_eq!(d.len(), 3);
    assert_eq!(d.items()[2].value, "Value");
    d.mutate_second_to_last();
    assert_eq!(d.items()[1].id, 2);
    assert_eq!(d.items()[1].value, "Mutated");
    assert_eq!(d.delete_by_id(1), Ok(()));
    assert_eq!(contents(&d), pairs(&[(2, "Mutated"), (3, "Value")]));
    d.delete_first();
    assert_eq!(contents(&d), pairs(&[(3, "Value")]));
}

#[test]
fn add_appends_placeholder_at_end() {
    let mut d = great_amasing();
    assert_eq!(d.add_item(7), Ok(()));
    assert_eq!(contents(&d), pairs(&[(1, "great"), (2, "amasing"), (7, "Value")]));
}

#[test]
fn add_item_with_present_key_is_refused() {
    let mut d = great_amasing();
    assert_eq!(d.add_item(2), Err(StoreError::DuplicateId(2)));
    assert_eq!(contents(&d), pairs(&[(1, "great"), (2, "amasing")]));
}

#[test]
fn add_draws_a_fresh_random_key() {
    let mut d = great_amasing();
    let id = d.add().unwrap();
    assert_eq!(d.len(), 3);
    assert_eq!(d.items()[2].id, id);
    assert_eq!(d.items()[2].value, "Value");
    assert_eq!(id & 0xF000_C000_0000_0000_0000, 0x4000_8000_0000_0000_0000);
    let id2 = d.add().unwrap();
    assert_ne!(id, id2);
    assert_eq!(d.len(), 4);
}

#[test]
fn delete_first_on_empty_is_no_op() {
    let mut d = Data::new(vec![]);
    d.delete_first();
    assert_eq!(d.len(), 0);
    d.delete_first();
    assert_eq!(d.len(), 0);
}

#[test]
fn delete_first_removes_position_zero() {
    let mut d = great_amasing();
    d.delete_first();
    assert_eq!(contents(&d), pairs(&[(2, "amasing")]));
}

#[test]
fn delete_unknown_id_leaves_list_unchanged() {
    let mut d = great_amasing();
    assert_eq!(d.delete_by_id(42), Err(StoreError::UnknownId(42)));
    assert_eq!(contents(&d), pairs(&[(1, "great"), (2, "amasing")]));
}

#[test]
fn delete_by_id_keeps_order() {
    let mut d = Data::new(vec![item(5, "a"), item(6, "b"), item(7, "c")]);
    assert_eq!(d.delete_by_id(6), Ok(()));
    assert_eq!(contents(&d), pairs(&[(5, "a"), (7, "c")]));
}

#[test]
fn mutate_short_list_is_no_op() {
    let mut d = Data::new(vec![item(1, "only")]);
    d.mutate_second_to_last();
    assert_eq!(contents(&d), pairs(&[(1, "only")]));
    let mut e = Data::new(vec![]);
    e.mutate_second_to_last();
    assert_eq!(e.len(), 0);
}

#[test]
fn mutate_changes_only_second_to_last() {
    let mut d = Data::new(vec![item(1, "a"), item(2, "b"), item(3, "c"), item(4, "d")]);
    d.mutate_second_to_last();
    assert_eq!(contents(&d), pairs(&[(1, "a"), (2, "b"), (3, "Mutated"), (4, "d")]));
}

#[test]
fn initialize_round_trip() {
    let d = Data::new(vec![item(9, "x"), item(3, "y"), item(5, "z")]);
    assert_eq!(contents(&d), pairs(&[(9, "x"), (3, "y"), (5, "z")]));
}

#[test]
fn keys_stay_unique_over_requests() {
    let mut d = great_amasing();
    let ops = [
        Op::Add(3),
        Op::Add(3),
        Op::DeleteById(1),
        Op::Add(1),
        Op::DeleteFirst,
        Op::Add(2),
        Op::MutateSecondToLast,
        Op::DeleteById(8),
    ];
    for op in ops {
        let _ = d.apply(op);
        assert_eq!(first_duplicate(d.items()), None);
    }
    assert_eq!(contents(&d), pairs(&[(3, "Value"), (1, "Mutated"), (2, "Value")]));
}

#[test]
fn apply_reports_outcomes() {
    let mut d = great_amasing();
    assert_eq!(d.apply(Op::Add(1)), Err(StoreError::DuplicateId(1)));
    assert_eq!(d.apply(Op::DeleteById(5)), Err(StoreError::UnknownId(5)));
    assert_eq!(d.apply(Op::DeleteFirst), Ok(()));
    assert_eq!(d.apply(Op::MutateSecondToLast), Ok(()));
    assert_eq!(contents(&d), pairs(&[(2, "amasing")]));
}

#[test]
fn try_new_rejects_shared_keys() {
    let r = Data::try_new(vec![item(1, "a"), item(2, "b"), item(1, "c")]);
    assert!(matches!(r, Err(StoreError::DuplicateId(1))));
    let ok = Data::try_new(vec![item(1, "a"), item(2, "b")]).unwrap();
    assert_eq!(contents(&ok), pairs(&[(1, "a"), (2, "b")]));
}

#[test]
fn first_duplicate_finds_shared_key() {
    assert_eq!(first_duplicate(&vec![item(4, "a"), item(5, "b"), item(5, "c")]), Some(5));
    assert_eq!(first_duplicate(&vec![item(4, "a"), item(5, "b")]), None);
    assert_eq!(first_duplicate(&vec![]), None);
}

#[test]
fn position_of_finds_key() {
    let d = great_amasing();
    assert_eq!(d.position_of(2), Some(1));
    assert_eq!(d.position_of(3), None);
}

#[test]
fn sample_list_has_given_keys() {
    let v = sample_items(10, 20);
    assert_eq!(v.len(), 2);
    assert_eq!((v[0].id, v[0].value.as_str()), (10, "great"));
    assert_eq!((v[1].id, v[1].value.as_str()), (20, "amasing"));
}

#[test]
fn data_source_draws_random_keys() {
    let v = get_items();
    assert_eq!(v.len(), 2);
    assert_eq!(v[0].value, "great");
    assert_eq!(v[1].value, "amasing");
    for i in &v {
        assert_eq!(i.id & 0xF000_C000_0000_0000_0000, 0x4000_8000_0000_0000_0000);
    }
    assert_ne!(v[0].id, v[1].id);
    let w = get_items();
    assert_ne!(v[0].id, w[0].id);
}
