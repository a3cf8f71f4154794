//! The store: the four lifecycle operations over a backing collection, and
//! the reference backend that keeps its records in memory.
use crate::item::{domain_id_of, row_id_of, stored_form, Item};
use crate::storage::{
    first_match, is_first_match, lemma_first_match, lemma_first_match_is, Find, FindMut,
    InsertItem, Position, Records, RemoveByIndex, RowId,
};
use crate::Error;
use vstd::prelude::*;

pub mod memory;

verus! {

/// The identity of a logical store: set when the store is made, never changed.
pub struct StoreInfo {
    /// Name of the database.
    database_name: String,
    /// Id of the container.
    container_id: String,
}

/// A store's identity as plain values.
pub struct StoreInfoView {
    pub database_name: Seq<char>,
    pub container_id: Seq<char>,
}

impl View for StoreInfo {
    type V = StoreInfoView;

    closed spec fn view(&self) -> StoreInfoView {
        StoreInfoView { database_name: self.database_name@, container_id: self.container_id@ }
    }
}

impl StoreInfo {
    /// The identity made of the two names as they are given: neither is
    /// checked.
    pub fn new(database_name: &str, container_id: &str) -> (info: Self)
        ensures
            info@ == (StoreInfoView { database_name: database_name@, container_id: container_id@ }),
    {
        StoreInfo { database_name: database_name.to_owned(), container_id: container_id.to_owned() }
    }

    /// The name of the database.
    pub fn database_name(&self) -> (name: &str)
        ensures
            name@ == self@.database_name,
    {
        self.database_name.as_str()
    }

    /// The id of the container.
    pub fn container_id(&self) -> (id: &str)
        ensures
            id@ == self@.container_id,
    {
        self.container_id.as_str()
    }
}

/// The record that a read under `key` answers with: the first one stored
/// under that row identity.
pub open spec fn spec_read<T: Item>(s: Seq<T::V>, key: RowId) -> Option<T::V> {
    match first_match::<T>(s, key) {
        Some(k) => Some(s[k]),
        None => None,
    }
}

/// The records after `v` was created: `v` in its stored form, behind the
/// others.
pub open spec fn spec_create<T: Item>(s: Seq<T::V>, v: T::V) -> Seq<T::V> {
    s.push(stored_form::<T>(v))
}

/// The records after a replace by `v`: `v` in the place of the first record
/// stored under its row identity; the same records where there is none.
pub open spec fn spec_replace<T: Item>(s: Seq<T::V>, v: T::V) -> Seq<T::V> {
    match first_match::<T>(s, row_id_of::<T>(v)) {
        Some(k) => s.update(k, v),
        None => s,
    }
}

/// The records after a delete under `key`: all but the first one stored under
/// that row identity; the same records where there is none.
pub open spec fn spec_delete<T: Item>(s: Seq<T::V>, key: RowId) -> Seq<T::V> {
    match first_match::<T>(s, key) {
        Some(k) => s.remove(k),
        None => s,
    }
}

/// A store in which a record can be created.
pub trait Create<T: Item>: Records<T> {
    /// Stores a copy of `item` under its domain identity and returns the
    /// record that the store then answers with under that identity. A store
    /// whose collection cannot take the record reports so and stays as it was.
    fn create(&mut self, item: &T) -> (r: Result<&T, Error>)
        ensures
            old(self).takes(stored_form::<T>(item@)) ==> r is Ok,
            match r {
                Ok(created) => {
                    &&& final(self).records() == spec_create::<T>(old(self).records(), item@)
                    &&& spec_read::<T>(final(self).records(), domain_id_of::<T>(item@)) == Some(
                        created@,
                    )
                },
                Err(_) => final(self).records() == old(self).records(),
            },
    ;
}

/// A store in which a record can be replaced.
pub trait Replace<T: Item>: Records<T> {
    /// Puts a copy of `item` in the place of the first record stored under the
    /// row identity of `item` and returns the record now stored there. Fails,
    /// and changes nothing, where no record is stored under that row identity.
    fn replace(&mut self, item: &T) -> (r: Result<&T, Error>)
        ensures
            r is Ok <==> first_match::<T>(old(self).records(), row_id_of::<T>(item@)) is Some,
            final(self).records() == spec_replace::<T>(old(self).records(), item@),
            r matches Ok(replaced) ==> replaced@ == item@ && spec_read::<T>(
                final(self).records(),
                row_id_of::<T>(item@),
            ) == Some(item@),
    ;
}

/// A store from which a record can be deleted.
pub trait Delete<T: Item>: Records<T> {
    /// Takes out the first record stored under the row identity of `item` and
    /// returns it. Fails, and changes nothing, where no record is stored under
    /// that row identity.
    fn delete(&mut self, item: &T) -> (r: Result<T, Error>)
        ensures
            final(self).records() == spec_delete::<T>(old(self).records(), row_id_of::<T>(item@)),
            match r {
                Ok(deleted) => spec_read::<T>(old(self).records(), row_id_of::<T>(item@)) == Some(
                    deleted@,
                ),
                Err(_) => spec_read::<T>(old(self).records(), row_id_of::<T>(item@)) is None,
            },
    ;
}

/// A store from which a record can be read.
pub trait Read<T: Item>: Records<T> {
    /// Returns the first record stored under the row identity of `item`, or
    /// fails where there is none.
    fn read(&self, item: &T) -> (r: Result<&T, Error>)
        ensures
            match r {
                Ok(found) => spec_read::<T>(self.records(), row_id_of::<T>(item@)) == Some(found@),
                Err(_) => spec_read::<T>(self.records(), row_id_of::<T>(item@)) is None,
            },
    ;
}

/// A store that can tell the identity it was made with.
pub trait AsStoreInfo {
    /// The identity of the store.
    spec fn store_info(&self) -> StoreInfo;

    /// The identity of the store.
    fn as_ref(&self) -> (info: &StoreInfo)
        ensures
            *info == self.store_info(),
    ;
}

/// A complete store: all four lifecycle operations, made from a store's
/// identity and able to tell it. The trait has nothing of its own; it marks
/// the types that have all of this.
pub trait Store<T: Item>: Replace<T> + Create<T> + Delete<T> + Read<T> + From<
    StoreInfo,
> + AsStoreInfo {

}

/// Reads from `storage`: the first record stored under the row identity of
/// `item`.
pub fn read_from<'a, T: Item, S: Find<T>>(storage: &'a S, item: &T) -> (r: Result<&'a T, Error>)
    ensures
        match r {
            Ok(found) => spec_read::<T>(storage.records(), row_id_of::<T>(item@)) == Some(found@),
            Err(e) => spec_read::<T>(storage.records(), row_id_of::<T>(item@)) is None
                && e.is_plain(),
        },
{
    match storage.find(item) {
        Some((_, found)) => Ok(found),
        None => Err(Error::new()),
    }
}

/// Creates in `storage`: stores a copy of `item` whose row identity is the
/// domain identity of `item`, then reads under that identity. The read cannot
/// fail, since the copy was just stored under it; where an earlier record is
/// stored under the same row identity, it is that one which is returned.
pub fn create_in<'a, T: Item, S: InsertItem<T> + Find<T>>(storage: &'a mut S, item: &T) -> (r:
    Result<&'a T, Error>)
    ensures
        old(storage).takes(stored_form::<T>(item@)) ==> r is Ok,
        match r {
            Ok(created) => {
                &&& final(storage).records() == spec_create::<T>(old(storage).records(), item@)
                &&& spec_read::<T>(final(storage).records(), domain_id_of::<T>(item@)) == Some(
                    created@,
                )
            },
            Err(_) => final(storage).records() == old(storage).records(),
        },
{
    let mut stored = item.clone();
    proof {
        T::lemma_clone(*item, stored);
    }
    stored.as_mut().set_row_id(item.partition(), item.id());
    proof {
        T::lemma_with_base(
            item@,
            T::spec_base(item@).with_row_id(T::spec_partition(item@), T::spec_id(item@)),
        );
    }
    assert(stored@ == stored_form::<T>(item@));
    match storage.insert_item(&stored) {
        Err(e) => {
            return Err(e);
        },
        Ok(_) => {},
    }
    proof {
        let s = storage.records();
        assert(row_id_of::<T>(s[s.len() - 1]) == domain_id_of::<T>(item@));
        lemma_first_match::<T>(s, domain_id_of::<T>(item@));
    }
    match storage.find(&stored) {
        Some((_, created)) => Ok(created),
        None => {
            assert(false);
            Err(Error::new())
        },
    }
}

/// Replaces in `storage`: overwrites the first record stored under the row
/// identity of `item` with a copy of `item`, then reads under that identity.
pub fn replace_in<'a, T: Item, S: FindMut<T> + Find<T>>(storage: &'a mut S, item: &T) -> (r:
    Result<&'a T, Error>)
    ensures
        r is Ok <==> first_match::<T>(old(storage).records(), row_id_of::<T>(item@)) is Some,
        final(storage).records() == spec_replace::<T>(old(storage).records(), item@),
        r matches Ok(replaced) ==> replaced@ == item@ && spec_read::<T>(
            final(storage).records(),
            row_id_of::<T>(item@),
        ) == Some(item@),
        r matches Err(e) ==> e.is_plain(),
{
    let ghost key = row_id_of::<T>(item@);
    let ghost before = storage.records();
    match storage.find_mut(item) {
        Some((_, slot)) => {
            let copy = item.clone();
            proof {
                T::lemma_clone(*item, copy);
            }
            *slot = copy;
        },
        None => {
            return Err(Error::new());
        },
    }
    proof {
        lemma_first_match::<T>(before, key);
        let k = first_match::<T>(before, key)->0;
        assert(storage.records() == before.update(k, item@));
        assert(is_first_match::<T>(storage.records(), key, k));
        lemma_first_match_is::<T>(storage.records(), key, k);
    }
    match storage.find(item) {
        Some((_, replaced)) => Ok(replaced),
        None => {
            assert(false);
            Err(Error::new())
        },
    }
}

/// Deletes from `storage`: finds the first record stored under the row
/// identity of `item`, then takes out the record at the index found.
pub fn delete_from<T: Item, I: Position, S: Find<T, Index = I> + RemoveByIndex<T, Index = I>>(
    storage: &mut S,
    item: &T,
) -> (r: Result<T, Error>)
    ensures
        final(storage).records() == spec_delete::<T>(old(storage).records(), row_id_of::<T>(item@)),
        match r {
            Ok(deleted) => spec_read::<T>(old(storage).records(), row_id_of::<T>(item@)) == Some(
                deleted@,
            ),
            Err(e) => spec_read::<T>(old(storage).records(), row_id_of::<T>(item@)) is None
                && e.is_plain(),
        },
{
    proof {
        lemma_first_match::<T>(storage.records(), row_id_of::<T>(item@));
    }
    let index = match storage.find(item) {
        Some((index, _)) => index,
        None => {
            return Err(Error::new());
        },
    };
    match storage.remove_by_index(index) {
        Some(deleted) => Ok(deleted),
        None => {
            assert(false);
            Err(Error::new())
        },
    }
}

impl<T: Item> Read<T> for Vec<T> {
    fn read(&self, item: &T) -> (r: Result<&T, Error>)
        ensures
            r matches Err(e) ==> e.is_plain(),
    {
        read_from(self, item)
    }
}

impl<T: Item> Create<T> for Vec<T> {
    fn create(&mut self, item: &T) -> (r: Result<&T, Error>) {
        create_in(self, item)
    }
}

impl<T: Item> Replace<T> for Vec<T> {
    fn replace(&mut self, item: &T) -> (r: Result<&T, Error>)
        ensures
            r matches Err(e) ==> e.is_plain(),
    {
        replace_in(self, item)
    }
}

impl<T: Item> Delete<T> for Vec<T> {
    fn delete(&mut self, item: &T) -> (r: Result<T, Error>)
        ensures
            r matches Err(e) ==> e.is_plain(),
    {
        delete_from(self, item)
    }
}

} // verus!
