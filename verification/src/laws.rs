//! What holds of the lifecycle operations taken together, over the records
//! that a store holds.
use crate::item::{domain_id_of, row_id_of, stored_form, Item};
use crate::storage::{
    first_match, is_first_match, lemma_first_match, lemma_first_match_is, Records, RowId,
};
use crate::store::memory::MemoryStore;
use crate::store::{spec_create, spec_delete, spec_read, spec_replace};
use vstd::prelude::*;

verus! {

/// A record is stored under its domain identity, which the stored form keeps.
pub proof fn lemma_stored_form<T: Item>(v: T::V)
    ensures
        row_id_of::<T>(stored_form::<T>(v)) == domain_id_of::<T>(v),
        domain_id_of::<T>(stored_form::<T>(v)) == domain_id_of::<T>(v),
{
    T::lemma_with_base(
        v,
        T::spec_base(v).with_row_id(T::spec_partition(v), T::spec_id(v)),
    );
}

/// A record whose row identity is its domain identity already is stored as it
/// is; so the stored form of a stored form is that stored form.
pub proof fn lemma_stored_form_of_stored<T: Item>(v: T::V)
    ensures
        row_id_of::<T>(v) == domain_id_of::<T>(v) ==> stored_form::<T>(v) == v,
        stored_form::<T>(stored_form::<T>(v)) == stored_form::<T>(v),
{
    if row_id_of::<T>(v) == domain_id_of::<T>(v) {
        lemma_stored_as_it_is::<T>(v);
    }
    lemma_stored_form::<T>(v);
    lemma_stored_as_it_is::<T>(stored_form::<T>(v));
}

/// The first half of `lemma_stored_form_of_stored`, for one record.
proof fn lemma_stored_as_it_is<T: Item>(v: T::V)
    requires
        row_id_of::<T>(v) == domain_id_of::<T>(v),
    ensures
        stored_form::<T>(v) == v,
{
    let base = T::spec_base(v);
    assert(base.with_row_id(T::spec_partition(v), T::spec_id(v)) == base);
    T::lemma_with_own_base(v);
}

/// After a create, a read under the record's domain identity succeeds. It
/// answers with the first record stored under that row identity: the record
/// just created where there was none before, the earlier one where there was.
pub proof fn lemma_create_then_read<T: Item>(s: Seq<T::V>, v: T::V)
    ensures
        spec_read::<T>(spec_create::<T>(s, v), domain_id_of::<T>(v)) == match first_match::<T>(
            s,
            domain_id_of::<T>(v),
        ) {
            Some(k) => Some(s[k]),
            None => Some(stored_form::<T>(v)),
        },
{
    let key = domain_id_of::<T>(v);
    let after = spec_create::<T>(s, v);
    lemma_stored_form::<T>(v);
    lemma_first_match::<T>(s, key);
    match first_match::<T>(s, key) {
        Some(k) => {
            assert(is_first_match::<T>(after, key, k));
            lemma_first_match_is::<T>(after, key, k);
        },
        None => {
            assert(is_first_match::<T>(after, key, s.len() as int));
            lemma_first_match_is::<T>(after, key, s.len() as int);
        },
    }
}

/// After a create, a read under the record's domain identity answers with a
/// record of that domain identity, provided that every record already stored
/// under this row identity has it as its domain identity too.
pub proof fn lemma_create_then_read_identity<T: Item>(s: Seq<T::V>, v: T::V)
    requires
        forall|k: int|
            0 <= k < s.len() && row_id_of::<T>(#[trigger] s[k]) == domain_id_of::<T>(v)
                ==> domain_id_of::<T>(s[k]) == domain_id_of::<T>(v),
    ensures
        spec_read::<T>(spec_create::<T>(s, v), domain_id_of::<T>(v)) matches Some(found)
            && domain_id_of::<T>(found) == domain_id_of::<T>(v),
{
    lemma_create_then_read::<T>(s, v);
    lemma_stored_form::<T>(v);
    lemma_first_match::<T>(s, domain_id_of::<T>(v));
}

/// A replace changes the records exactly where a record is stored under the
/// row identity of `v`; a read under that identity then answers with `v`.
pub proof fn lemma_replace_then_read<T: Item>(s: Seq<T::V>, v: T::V)
    ensures
        match first_match::<T>(s, row_id_of::<T>(v)) {
            Some(k) => spec_read::<T>(spec_replace::<T>(s, v), row_id_of::<T>(v)) == Some(v),
            None => spec_replace::<T>(s, v) == s,
        },
{
    let key = row_id_of::<T>(v);
    lemma_first_match::<T>(s, key);
    if let Some(k) = first_match::<T>(s, key) {
        let after = spec_replace::<T>(s, v);
        assert(is_first_match::<T>(after, key, k));
        lemma_first_match_is::<T>(after, key, k);
    }
}

/// Create, then delete under the same identity, where no record was stored
/// under it before: the records are what they were, and a read under that
/// identity finds nothing.
pub proof fn lemma_create_then_delete<T: Item>(s: Seq<T::V>, v: T::V)
    requires
        first_match::<T>(s, domain_id_of::<T>(v)) is None,
    ensures
        spec_delete::<T>(spec_create::<T>(s, v), domain_id_of::<T>(v)) == s,
        spec_read::<T>(
            spec_delete::<T>(spec_create::<T>(s, v), domain_id_of::<T>(v)),
            domain_id_of::<T>(v),
        ) is None,
{
    let key = domain_id_of::<T>(v);
    let after = spec_create::<T>(s, v);
    lemma_stored_form::<T>(v);
    lemma_first_match::<T>(s, key);
    assert(is_first_match::<T>(after, key, s.len() as int));
    lemma_first_match_is::<T>(after, key, s.len() as int);
    assert(after.remove(s.len() as int) =~= s);
}

/// Create, then delete under the same identity: one record fewer than after
/// the create, as many as before it, whatever was stored.
pub proof fn lemma_create_then_delete_count<T: Item>(s: Seq<T::V>, v: T::V)
    ensures
        spec_delete::<T>(spec_create::<T>(s, v), domain_id_of::<T>(v)).len() == spec_create::<T>(
            s,
            v,
        ).len() - 1,
        spec_delete::<T>(spec_create::<T>(s, v), domain_id_of::<T>(v)).len() == s.len(),
{
    let key = domain_id_of::<T>(v);
    let after = spec_create::<T>(s, v);
    lemma_stored_form::<T>(v);
    assert(row_id_of::<T>(after[s.len() as int]) == key);
    lemma_first_match::<T>(after, key);
}

/// How many records a store holds: one more after a create, one fewer after
/// a delete that finds a record, as many after a delete that finds none and
/// after every replace. A read changes nothing: it takes the store as it is.
pub proof fn lemma_counts<T: Item>(s: Seq<T::V>, v: T::V, key: RowId)
    ensures
        spec_create::<T>(s, v).len() == s.len() + 1,
        spec_replace::<T>(s, v).len() == s.len(),
        first_match::<T>(s, key) is Some ==> spec_delete::<T>(s, key).len() == s.len() - 1,
        first_match::<T>(s, key) is None ==> spec_delete::<T>(s, key) == s,
{
    lemma_first_match::<T>(s, key);
    lemma_first_match::<T>(s, row_id_of::<T>(v));
}

/// A type that is its own storage and a type that keeps its records in a
/// field do the same: with the same records in a `Vec` and in a
/// `MemoryStore`, every operation finds the same record and leaves the same
/// records.
pub proof fn lemma_self_as_storage<T: Item>(own: Vec<T>, kept: MemoryStore<T>, v: T::V, key: RowId)
    requires
        own.records() == kept.records(),
    ensures
        spec_read::<T>(own.records(), key) == spec_read::<T>(kept.records(), key),
        spec_create::<T>(own.records(), v) == spec_create::<T>(kept.records(), v),
        spec_replace::<T>(own.records(), v) == spec_replace::<T>(kept.records(), v),
        spec_delete::<T>(own.records(), key) == spec_delete::<T>(kept.records(), key),
{
}

} // verus!
