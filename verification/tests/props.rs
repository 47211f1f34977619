use typeset::TypeSet;
use typeset::entry::Entry;

#[test]
fn insert_replace() {
    let mut set = TypeSet::new();
    assert_eq!(set.insert(true), None);
    assert_eq!(set.len(), 1);
    assert!(set.contains::<bool>());
    assert_eq!(set.insert(false), Some(true));
    assert_eq!(set.len(), 1);
    assert_eq!(set.get::<bool>(), Some(&false));
}

#[test]
fn remove_round_trip() {
    let mut set = TypeSet::new();
    set.insert(41u32);
    let before = set.len();
    set.insert(String::from("v"));
    assert_eq!(set.remove::<String>(), Some(String::from("v")));
    assert!(!set.contains::<String>());
    assert_eq!(set.len(), before);
    assert_eq!(set.remove::<String>(), None);
    assert_eq!(set.len(), before);
}

#[test]
fn or_insert_with_is_lazy() {
    let mut set = TypeSet::new();
    set.insert(7u64);
    let value = set
        .entry::<u64>()
        .or_insert_with(|| panic!("must not be constructed"));
    assert_eq!(*value, 7);
}

#[test]
fn and_modify_vacant_is_a_no_op() {
    let mut set = TypeSet::new();
    set.insert(1u8);
    let entry = set
        .entry::<u16>()
        .and_modify(|_| panic!("must not be invoked"));
    assert!(entry.is_empty());
    assert_eq!(entry.take(), None);
    assert_eq!(set.len(), 1);
    assert!(!set.contains::<u16>());
    assert_eq!(set.get::<u8>(), Some(&1));
}

#[test]
fn merge_bias() {
    let mut left = TypeSet::new().with(1u8).with("left");
    let right = TypeSet::new().with(2u16).with("right");
    left.merge(right);
    assert_eq!(left.len(), 3);
    assert_eq!(left.get::<u8>(), Some(&1));
    assert_eq!(left.get::<u16>(), Some(&2));
    assert_eq!(left.get::<&'static str>(), Some(&"right"));
}

#[test]
fn entry_string_or_insert() {
    let mut c = TypeSet::new();
    c.entry::<String>().or_insert("hi".into());
    assert_eq!(c.get::<String>(), Some(&"hi".to_string()));
}

#[test]
fn entry_states() {
    let mut set = TypeSet::new();
    assert!(set.entry::<u8>().is_empty());
    assert!(set.entry::<u8>().into_occupied().is_none());
    assert!(set.entry::<u8>().into_vacant().is_some());
    assert!(set.entry::<u8>().into_mut().is_none());

    let vacant = set.entry::<u8>().unwrap_vacant();
    assert_eq!(*vacant.insert(3), 3);
    assert!(!set.entry::<u8>().is_empty());
    assert!(set.entry::<u8>().into_vacant().is_none());

    let mut occupied = set.entry::<u8>().unwrap_occupied();
    assert_eq!(*occupied.get(), 3);
    assert_eq!(occupied.insert(4), 3);
    assert_eq!(*occupied.get(), 4);
    *occupied.get_mut() = 5;
    assert_eq!(*occupied.into_mut(), 5);

    assert_eq!(set.entry::<u8>().insert(6), Some(5));
    assert_eq!(set.len(), 1);
    assert_eq!(set.entry::<u8>().take(), Some(6));
    assert!(set.is_empty());
    assert_eq!(set.entry::<u16>().insert(7), None);
    assert_eq!(set.len(), 1);
}

#[test]
fn or_default_on_vacant() {
    let mut set = TypeSet::new();
    assert_eq!(*set.entry::<&'static str>().or_default(), "");
    set.insert("hello");
    assert_eq!(*set.entry::<&'static str>().or_default(), "hello");
    assert_eq!(*set.get_or_insert_default::<u32>(), 0);
    assert_eq!(set.len(), 2);
}

#[test]
fn into_mut_writes_into_the_slot() {
    let mut set = TypeSet::new();
    set.insert(vec![1u8]);
    match set.entry::<Vec<u8>>() {
        Entry::Occupied(occupied) => occupied.into_mut().push(2),
        Entry::Vacant(_) => panic!(),
    }
    assert_eq!(set.get::<Vec<u8>>(), Some(&vec![1u8, 2]));
}
