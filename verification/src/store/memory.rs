//! The reference backend: a store that keeps its records in a `Vec`.
use crate::item::Item;
use crate::storage::Records;
use crate::store::{
    create_in, delete_from, read_from, replace_in, AsStoreInfo, Create, Delete, Read, Replace,
    Store, StoreInfo,
};
use crate::Error;
use std::slice::Iter;
use vstd::prelude::*;
use vstd::std_specs::convert::FromSpecImpl;
use vstd::std_specs::slice::into_iter_elts;

verus! {

/// A store of `T` in memory. The records live in the field `items`, which is
/// the storage receiver of every operation.
pub struct MemoryStore<T: Item> {
    items: Vec<T>,
    store_info: StoreInfo,
}

impl<T: Item> MemoryStore<T> {
    /// An iterator over the stored records, in the order in which they were
    /// stored. It reads and does not take: a second call walks them again.
    pub fn iter_items(&self) -> (iter: Iter<'_, T>)
        ensures
            into_iter_elts(iter).map_values(|x: T| x@) == self.records(),
    {
        self.items.iter()
    }
}

impl<T: Item> Records<T> for MemoryStore<T> {
    closed spec fn records(&self) -> Seq<T::V> {
        self.items.records()
    }

    closed spec fn takes(&self, v: T::V) -> bool {
        self.items.takes(v)
    }
}

/// No spec function builds a store, so `from` is not held to one: it states
/// itself what it returns.
impl<T: Item> FromSpecImpl<StoreInfo> for MemoryStore<T> {
    open spec fn obeys_from_spec() -> bool {
        false
    }

    open spec fn from_spec(v: StoreInfo) -> Self {
        arbitrary()
    }
}

impl<T: Item> From<StoreInfo> for MemoryStore<T> {
    /// An empty store with the identity `value`.
    fn from(value: StoreInfo) -> (store: Self)
        ensures
            store.records() == Seq::<T::V>::empty(),
            store.store_info() == value,
    {
        Self { items: Vec::new(), store_info: value }
    }
}

impl<T: Item> Read<T> for MemoryStore<T> {
    fn read(&self, item: &T) -> (r: Result<&T, Error>)
        ensures
            r matches Err(e) ==> e.is_plain(),
    {
        read_from(&self.items, item)
    }
}

impl<T: Item> Create<T> for MemoryStore<T> {
    fn create(&mut self, item: &T) -> (r: Result<&T, Error>)
        ensures
            r is Ok,
    {
        create_in(&mut self.items, item)
    }
}

impl<T: Item> Replace<T> for MemoryStore<T> {
    fn replace(&mut self, item: &T) -> (r: Result<&T, Error>)
        ensures
            r matches Err(e) ==> e.is_plain(),
    {
        replace_in(&mut self.items, item)
    }
}

impl<T: Item> Delete<T> for MemoryStore<T> {
    fn delete(&mut self, item: &T) -> (r: Result<T, Error>)
        ensures
            r matches Err(e) ==> e.is_plain(),
    {
        delete_from(&mut self.items, item)
    }
}

impl<T: Item> AsStoreInfo for MemoryStore<T> {
    closed spec fn store_info(&self) -> StoreInfo {
        self.store_info
    }

    fn as_ref(&self) -> (info: &StoreInfo) {
        &self.store_info
    }
}

impl<T: Item> Store<T> for MemoryStore<T> {

}

} // verus!
