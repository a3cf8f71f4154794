//! A small record store: typed records found by a row identity, the four
//! lifecycle operations over any backing collection, and the generator that
//! binds those operations to a record type's shape.
use std::time::Duration;
use vstd::prelude::*;

pub mod codegen;
pub mod descriptor;
pub mod item;
pub mod laws;
pub mod storage;
pub mod store;

pub use codegen::store_trait::{DescriptorError, GenericsParts, StoreTrait};
pub use codegen::{derive_store, FieldShape, ShapeKind, TypeShape};
pub use descriptor::Descriptor;
pub use item::{BaseItem, BaseItemFields, Item, ManagementState};
pub use storage::{Find, FindMut, InsertItem, Position, Records, RemoveByIndex, Storage};
pub use store::memory::MemoryStore;
pub use store::{
    create_in, delete_from, read_from, replace_in, AsStoreInfo, Create, Delete, Read, Replace,
    Store, StoreInfo,
};

verus! {

/// The one failure that the store reports: no record matches the row identity
/// that was asked for.
///
/// The two fields are kept for backends that answer with an HTTP-style status
/// and a delay before a retry; nothing sets them yet.
#[derive(Debug)]
pub struct Error {
    _http_status_code: Option<usize>,
    _retry_after: Option<Duration>,
}

impl Error {
    /// The status code carried by the error, if any.
    pub closed spec fn http_status_code(&self) -> Option<usize> {
        self._http_status_code
    }

    /// Whether the error carries a delay before a retry.
    pub closed spec fn has_retry_after(&self) -> bool {
        self._retry_after is Some
    }

    /// Whether the error is the plain not-found: no status code, no retry
    /// delay.
    pub open spec fn is_plain(&self) -> bool {
        self.http_status_code() is None && !self.has_retry_after()
    }

    /// The plain not-found error.
    pub fn new() -> (e: Self)
        ensures
            e.is_plain(),
    {
        Self { _http_status_code: None, _retry_after: None }
    }
}

} // verus!
