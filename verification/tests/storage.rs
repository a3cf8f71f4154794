use std::collections::BTreeMap;
use talk_lib::{Descriptor, Find, FindMut, InsertItem, Item, RemoveByIndex};

fn stored(digest: &str, media_type: &str, size: usize) -> Descriptor {
    let mut d = Descriptor::new(digest, media_type, size, BTreeMap::new());
    Item::as_mut(&mut d).set_row_id(media_type, digest);
    d
}

#[test]
fn insert_item_appends_and_returns_the_length_before() {
    let mut records: Vec<Descriptor> = Vec::new();
    assert_eq!(records.insert_item(&stored("a", "m", 1)).unwrap(), 0);
    assert_eq!(records.insert_item(&stored("b", "m", 2)).unwrap(), 1);
    assert_eq!(records.insert_item(&stored("a", "m", 3)).unwrap(), 2);
    assert_eq!(records.len(), 3);
    assert_eq!(records[2].size(), 3);
}

#[test]
fn insert_item_does_not_rewrite_the_row_identity() {
    let mut records: Vec<Descriptor> = Vec::new();
    let item = Descriptor::new("a", "m", 0, BTreeMap::new());
    records.insert_item(&item).unwrap();
    let (pk, id) = Item::as_ref(&records[0]).get_row_id();
    assert_eq!((pk.as_str(), id.as_str()), ("", ""));
}

#[test]
fn find_answers_with_the_first_match() {
    let mut records: Vec<Descriptor> = Vec::new();
    records.insert_item(&stored("a", "m", 1)).unwrap();
    records.insert_item(&stored("b", "m", 2)).unwrap();
    records.insert_item(&stored("b", "m", 3)).unwrap();
    let (index, found) = records.find(&stored("b", "m", 0)).unwrap();
    assert_eq!(index, 1);
    assert_eq!(found.size(), 2);
}

#[test]
fn find_compares_both_parts_of_the_row_identity() {
    let mut records: Vec<Descriptor> = Vec::new();
    records.insert_item(&stored("a", "m", 1)).unwrap();
    assert!(records.find(&stored("a", "n", 0)).is_none());
    assert!(records.find(&stored("b", "m", 0)).is_none());
    assert!(records.find(&stored("a", "m", 0)).is_some());
}

#[test]
fn find_in_an_empty_collection_finds_nothing() {
    let records: Vec<Descriptor> = Vec::new();
    assert!(records.find(&stored("a", "m", 0)).is_none());
}

#[test]
fn find_mut_hands_out_the_first_match_for_writing() {
    let mut records: Vec<Descriptor> = Vec::new();
    records.insert_item(&stored("a", "m", 1)).unwrap();
    records.insert_item(&stored("b", "m", 2)).unwrap();
    records.insert_item(&stored("b", "m", 3)).unwrap();
    {
        let (index, slot) = records.find_mut(&stored("b", "m", 0)).unwrap();
        assert_eq!(index, 1);
        assert_eq!(slot.size(), 2);
        slot.set_digest("changed");
    }
    assert_eq!(records[0].digest(), "a");
    assert_eq!(records[1].digest(), "changed");
    assert_eq!(records[2].digest(), "b");
    assert!(records.find_mut(&stored("zz", "m", 0)).is_none());
}

#[test]
fn remove_by_index_returns_the_record_and_shifts_the_rest() {
    let mut records: Vec<Descriptor> = Vec::new();
    records.insert_item(&stored("a", "m", 1)).unwrap();
    records.insert_item(&stored("b", "m", 2)).unwrap();
    records.insert_item(&stored("c", "m", 3)).unwrap();
    let (index_of_c, _) = records.find(&stored("c", "m", 0)).unwrap();
    assert_eq!(index_of_c, 2);
    assert_eq!(records.remove_by_index(0).unwrap().digest(), "a");
    assert_eq!(records.len(), 2);
    // The index taken before the removal no longer stands for a record.
    assert!(records.remove_by_index(index_of_c).is_none());
    assert_eq!(records.find(&stored("c", "m", 0)).unwrap().0, 1);
}

#[test]
fn remove_by_index_beyond_the_end_removes_nothing() {
    let mut records: Vec<Descriptor> = Vec::new();
    assert!(records.remove_by_index(0).is_none());
    records.insert_item(&stored("a", "m", 1)).unwrap();
    assert!(records.remove_by_index(1).is_none());
    assert!(records.remove_by_index(usize::MAX).is_none());
    assert_eq!(records.len(), 1);
}
