//! The storage capability set: the four primitives that a backing collection
//! offers, each stated over the sequence of records that the collection holds.
use crate::item::{row_id_of, Item};
use crate::Error;
use vstd::prelude::*;

pub mod vec;

verus! {

/// A row identity: partition key, then registry id.
pub type RowId = (Seq<char>, Seq<char>);

/// A collection seen as the records it holds.
pub trait Records<T: Item> {
    /// The records held, in the order in which a search walks them.
    spec fn records(&self) -> Seq<T::V>;

    /// Whether the collection is sure to take the record `v` when it is
    /// inserted. A `Vec` takes any; a backend that may fail says `false` and
    /// promises nothing.
    spec fn takes(&self, v: T::V) -> bool;
}

/// An index into a collection. What it is made of is the collection's own
/// matter; the capabilities speak of the position that it stands for.
pub trait Position {
    spec fn position(&self) -> int;
}

impl Position for usize {
    open spec fn position(&self) -> int {
        *self as int
    }
}

/// Whether some record of `s` is stored under `key`.
pub open spec fn has_match<T: Item>(s: Seq<T::V>, key: RowId) -> bool {
    exists|k: int| 0 <= k < s.len() && row_id_of::<T>(#[trigger] s[k]) == key
}

/// Whether `k` is the position of the first record of `s` stored under `key`.
pub open spec fn is_first_match<T: Item>(s: Seq<T::V>, key: RowId, k: int) -> bool {
    &&& 0 <= k < s.len()
    &&& row_id_of::<T>(s[k]) == key
    &&& forall|j: int| 0 <= j < k ==> row_id_of::<T>(#[trigger] s[j]) != key
}

/// The position of the first record of `s` stored under `key`, if there is
/// one.
pub open spec fn first_match<T: Item>(s: Seq<T::V>, key: RowId) -> Option<int> {
    if exists|k: int| is_first_match::<T>(s, key, k) {
        Some(choose|k: int| is_first_match::<T>(s, key, k))
    } else {
        None
    }
}

/// A position that is a first match is the first match: there is at most one.
pub proof fn lemma_first_match_is<T: Item>(s: Seq<T::V>, key: RowId, k: int)
    requires
        is_first_match::<T>(s, key, k),
    ensures
        first_match::<T>(s, key) == Some(k),
{
    let c = choose|c: int| is_first_match::<T>(s, key, c);
    assert(is_first_match::<T>(s, key, c));
    if c < k {
        assert(row_id_of::<T>(s[c]) != key);
    } else if k < c {
        assert(row_id_of::<T>(s[k]) != key);
    }
}

/// Where no record is stored under `key`, there is no first match.
pub proof fn lemma_first_match_none<T: Item>(s: Seq<T::V>, key: RowId)
    requires
        forall|j: int| 0 <= j < s.len() ==> row_id_of::<T>(#[trigger] s[j]) != key,
    ensures
        first_match::<T>(s, key) is None,
        !has_match::<T>(s, key),
{
    if exists|k: int| is_first_match::<T>(s, key, k) {
        let c = choose|c: int| is_first_match::<T>(s, key, c);
        assert(row_id_of::<T>(s[c]) != key);
    }
}

/// What `first_match` answers: a position within `s` whose record is stored
/// under `key` and before which none is; or nothing, and then no record of `s`
/// is stored under `key`.
pub proof fn lemma_first_match<T: Item>(s: Seq<T::V>, key: RowId)
    ensures
        match first_match::<T>(s, key) {
            Some(k) => is_first_match::<T>(s, key, k),
            None => forall|j: int| 0 <= j < s.len() ==> row_id_of::<T>(#[trigger] s[j]) != key,
        },
        first_match::<T>(s, key) is Some <==> has_match::<T>(s, key),
    decreases s.len(),
{
    if first_match::<T>(s, key) is None {
        assert forall|j: int| 0 <= j < s.len() implies row_id_of::<T>(#[trigger] s[j]) != key by {
            if row_id_of::<T>(s[j]) == key {
                lemma_least_match::<T>(s, key, j);
            }
        }
    } else {
        let k = first_match::<T>(s, key)->0;
        assert(is_first_match::<T>(s, key, k));
        assert(row_id_of::<T>(s[k]) == key);
    }
}

/// Below any match there is a first one.
proof fn lemma_least_match<T: Item>(s: Seq<T::V>, key: RowId, j: int)
    requires
        0 <= j < s.len(),
        row_id_of::<T>(s[j]) == key,
    ensures
        exists|k: int| is_first_match::<T>(s, key, k),
    decreases j,
{
    if forall|i: int| 0 <= i < j ==> row_id_of::<T>(#[trigger] s[i]) != key {
        assert(is_first_match::<T>(s, key, j));
    } else {
        let i = choose|i: int| 0 <= i < j && row_id_of::<T>(#[trigger] s[i]) == key;
        lemma_least_match::<T>(s, key, i);
    }
}

/// A collection in which a stored record can be found by row identity.
pub trait Find<T: Item>: Records<T> {
    /// What stands for a position in this collection.
    type Index: Position;

    /// Finds the first record stored under the row identity of `item`, which
    /// is read from the base record of `item` and not from its domain
    /// identity. Answers with its index and the record, or with nothing where
    /// no record is stored under that row identity.
    fn find(&self, item: &T) -> (r: Option<(Self::Index, &T)>)
        ensures
            match r {
                Some((index, found)) => {
                    &&& first_match::<T>(self.records(), row_id_of::<T>(item@)) == Some(
                        index.position(),
                    )
                    &&& found@ == self.records()[index.position()]
                },
                None => first_match::<T>(self.records(), row_id_of::<T>(item@)) is None,
            },
    ;
}

/// A collection in which a stored record can be found by row identity, to be
/// changed in place.
pub trait FindMut<T: Item>: Records<T> {
    /// What stands for a position in this collection.
    type Index: Position;

    /// Finds the first record stored under the row identity of `item` and
    /// hands it out for writing. What the caller leaves in the handle is what
    /// the collection holds at that position afterwards; nothing else changes.
    fn find_mut(&mut self, item: &T) -> (r: Option<(Self::Index, &mut T)>)
        ensures
            match r {
                Some((index, slot)) => {
                    &&& first_match::<T>(old(self).records(), row_id_of::<T>(item@)) == Some(
                        index.position(),
                    )
                    &&& slot@ == old(self).records()[index.position()]
                    &&& final(self).records() == old(self).records().update(
                        index.position(),
                        final(slot)@,
                    )
                },
                None => {
                    &&& first_match::<T>(old(self).records(), row_id_of::<T>(item@)) is None
                    &&& final(self).records() == old(self).records()
                },
            },
    ;
}

/// A collection from which the record at an index can be taken out.
pub trait RemoveByIndex<T: Item>: Records<T> {
    /// What stands for a position in this collection.
    type Index: Position;

    /// Takes out the record at `index` and returns it; the records behind it
    /// move up by one, so an index taken before the call no longer stands for
    /// the same record. Where `index` stands for no record, nothing changes
    /// and nothing is returned.
    fn remove_by_index(&mut self, index: Self::Index) -> (r: Option<T>)
        ensures
            match r {
                Some(removed) => {
                    &&& 0 <= index.position() < old(self).records().len()
                    &&& removed@ == old(self).records()[index.position()]
                    &&& final(self).records() == old(self).records().remove(index.position())
                },
                None => {
                    &&& !(0 <= index.position() < old(self).records().len())
                    &&& final(self).records() == old(self).records()
                },
            },
    ;
}

/// A collection to which a record can be added.
pub trait InsertItem<T: Item>: Records<T> {
    /// What stands for a position in this collection.
    type Index: Position;

    /// Adds a copy of `item` behind the records already held and returns its
    /// index. No record is compared with it: a second record under the same
    /// row identity is stored like any other, and a search then answers with
    /// the earlier of the two. A collection that cannot take the record
    /// reports so and stays as it was.
    fn insert_item(&mut self, item: &T) -> (r: Result<Self::Index, Error>)
        ensures
            old(self).takes(item@) ==> r is Ok,
            match r {
                Ok(index) => {
                    &&& final(self).records() == old(self).records().push(item@)
                    &&& index.position() == old(self).records().len()
                },
                Err(_) => final(self).records() == old(self).records(),
            },
    ;
}

/// A collection with all four capabilities under one index type.
pub trait Storage<T: Item, Index: Position>: FindMut<T, Index = Index> + Find<
    T,
    Index = Index,
> + RemoveByIndex<T, Index = Index> + InsertItem<T, Index = Index> {

}

} // verus!
