use chart_engine::ids::IdList;

#[test]
fn push_hands_out_increasing_ids() {
    let mut l: IdList<&str> = IdList::new(1);
    assert_eq!(l.push("a"), 1);
    assert_eq!(l.push("b"), 2);
    assert_eq!(l.next_id(), 3);
    assert_eq!(l.ids_vec(), &vec![1, 2]);
    assert_eq!(l.items_vec(), &vec!["a", "b"]);
    assert_eq!(l.len(), 2);
}

#[test]
fn removed_ids_are_not_reused() {
    let mut l: IdList<u8> = IdList::new(1);
    l.push(10);
    l.push(20);
    assert_eq!(l.remove(2), Some(20));
    assert_eq!(l.push(30), 3);
    assert_eq!(l.ids_vec(), &vec![1, 3]);
    assert_eq!(l.remove(2), None);
    assert_eq!(l.len(), 2);
}

#[test]
fn position_and_get_mut() {
    let mut l: IdList<u8> = IdList::new(5);
    l.push(1);
    l.push(2);
    assert_eq!(l.position(6), Some(1));
    assert_eq!(l.position(7), None);
    *l.get_mut(0) = 9;
    assert_eq!(l.items_vec(), &vec![9, 2]);
}
