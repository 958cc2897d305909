use streamflow_analytics::keyed::KeyedList;

#[test]
fn insert_replaces_and_appends() {
    let mut l: KeyedList<u32> = KeyedList::new();
    assert_eq!(l.len(), 0);
    l.insert([1u8; 32], 10);
    l.insert([2u8; 32], 20);
    l.insert([1u8; 32], 11);
    assert_eq!(l.len(), 2);
    assert_eq!(l.get(&[1u8; 32]), Some(&11));
    assert_eq!(l.get(&[2u8; 32]), Some(&20));
    assert_eq!(l.get(&[3u8; 32]), None);
    assert_eq!(l.entry(0), &([1u8; 32], 11));
    assert_eq!(l.find(&[2u8; 32]), Some(1));
    assert_eq!(l.find(&[3u8; 32]), None);
}
