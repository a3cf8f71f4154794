//! The base record that every stored item embeds, and what a record type has
//! to offer to be stored.
use vstd::prelude::*;

verus! {

/// The lifecycle stage of a record. No operation of the store reads it.
#[derive(Clone, Copy, Debug, PartialEq, Eq, Structural)]
pub enum ManagementState {
    Default,
    Active,
    DeleteInitiated,
    Deleted,
    SoftDeleteInitiated,
    SoftDeleted,
    Pending,
}

impl Default for ManagementState {
    fn default() -> (s: Self)
        ensures
            s == ManagementState::Default,
    {
        ManagementState::Default
    }
}

/// The metadata carried by every stored item.
#[derive(Debug)]
pub struct BaseItem {
    partition_key: String,
    registry_id: String,
    repository_id: String,
    document_type: String,
    repository: String,
    version: String,
    created_at: String,
    deleted_at: String,
    no_change: bool,
    no_delete: bool,
    no_list: bool,
    no_read: bool,
    annotation_artifact_created: String,
    annotation_oci_artifact_created: String,
    state: ManagementState,
}

/// A base record as plain values.
pub struct BaseItemView {
    pub partition_key: Seq<char>,
    pub registry_id: Seq<char>,
    pub repository_id: Seq<char>,
    pub document_type: Seq<char>,
    pub repository: Seq<char>,
    pub version: Seq<char>,
    pub created_at: Seq<char>,
    pub deleted_at: Seq<char>,
    pub no_change: bool,
    pub no_delete: bool,
    pub no_list: bool,
    pub no_read: bool,
    pub annotation_artifact_created: Seq<char>,
    pub annotation_oci_artifact_created: Seq<char>,
    pub state: ManagementState,
}

impl BaseItemView {
    /// The row identity: partition key and registry id.
    pub open spec fn row_id(self) -> (Seq<char>, Seq<char>) {
        (self.partition_key, self.registry_id)
    }

    /// The same record under another row identity.
    pub open spec fn with_row_id(self, partition_key: Seq<char>, registry_id: Seq<char>) -> Self {
        BaseItemView { partition_key, registry_id, ..self }
    }

    /// The record that `BaseItem::default` makes: empty texts, no flag set,
    /// the default state.
    pub open spec fn empty() -> Self {
        BaseItemView {
            partition_key: Seq::empty(),
            registry_id: Seq::empty(),
            repository_id: Seq::empty(),
            document_type: Seq::empty(),
            repository: Seq::empty(),
            version: Seq::empty(),
            created_at: Seq::empty(),
            deleted_at: Seq::empty(),
            no_change: false,
            no_delete: false,
            no_list: false,
            no_read: false,
            annotation_artifact_created: Seq::empty(),
            annotation_oci_artifact_created: Seq::empty(),
            state: ManagementState::Default,
        }
    }
}

impl View for BaseItem {
    type V = BaseItemView;

    closed spec fn view(&self) -> BaseItemView {
        BaseItemView {
            partition_key: self.partition_key@,
            registry_id: self.registry_id@,
            repository_id: self.repository_id@,
            document_type: self.document_type@,
            repository: self.repository@,
            version: self.version@,
            created_at: self.created_at@,
            deleted_at: self.deleted_at@,
            no_change: self.no_change,
            no_delete: self.no_delete,
            no_list: self.no_list,
            no_read: self.no_read,
            annotation_artifact_created: self.annotation_artifact_created@,
            annotation_oci_artifact_created: self.annotation_oci_artifact_created@,
            state: self.state,
        }
    }
}

/// The fields of a base record, open to be read and set one by one: what a
/// base record is taken apart into, and put together from.
#[derive(Debug)]
pub struct BaseItemFields {
    pub partition_key: String,
    pub registry_id: String,
    pub repository_id: String,
    pub document_type: String,
    pub repository: String,
    pub version: String,
    pub created_at: String,
    pub deleted_at: String,
    pub no_change: bool,
    pub no_delete: bool,
    pub no_list: bool,
    pub no_read: bool,
    pub annotation_artifact_created: String,
    pub annotation_oci_artifact_created: String,
    pub state: ManagementState,
}

impl View for BaseItemFields {
    type V = BaseItemView;

    open spec fn view(&self) -> BaseItemView {
        BaseItemView {
            partition_key: self.partition_key@,
            registry_id: self.registry_id@,
            repository_id: self.repository_id@,
            document_type: self.document_type@,
            repository: self.repository@,
            version: self.version@,
            created_at: self.created_at@,
            deleted_at: self.deleted_at@,
            no_change: self.no_change,
            no_delete: self.no_delete,
            no_list: self.no_list,
            no_read: self.no_read,
            annotation_artifact_created: self.annotation_artifact_created@,
            annotation_oci_artifact_created: self.annotation_oci_artifact_created@,
            state: self.state,
        }
    }
}

impl Clone for BaseItem {
    fn clone(&self) -> (r: Self)
        ensures
            r == *self,
    {
        BaseItem {
            partition_key: self.partition_key.clone(),
            registry_id: self.registry_id.clone(),
            repository_id: self.repository_id.clone(),
            document_type: self.document_type.clone(),
            repository: self.repository.clone(),
            version: self.version.clone(),
            created_at: self.created_at.clone(),
            deleted_at: self.deleted_at.clone(),
            no_change: self.no_change,
            no_delete: self.no_delete,
            no_list: self.no_list,
            no_read: self.no_read,
            annotation_artifact_created: self.annotation_artifact_created.clone(),
            annotation_oci_artifact_created: self.annotation_oci_artifact_created.clone(),
            state: self.state,
        }
    }
}

impl Default for BaseItem {
    fn default() -> (r: Self)
        ensures
            r@ == BaseItemView::empty(),
    {
        BaseItem {
            partition_key: String::new(),
            registry_id: String::new(),
            repository_id: String::new(),
            document_type: String::new(),
            repository: String::new(),
            version: String::new(),
            created_at: String::new(),
            deleted_at: String::new(),
            no_change: false,
            no_delete: false,
            no_list: false,
            no_read: false,
            annotation_artifact_created: String::new(),
            annotation_oci_artifact_created: String::new(),
            state: ManagementState::Default,
        }
    }
}

impl BaseItem {
    /// The base record with the given fields.
    pub fn from_fields(fields: BaseItemFields) -> (r: Self)
        ensures
            r@ == fields@,
    {
        BaseItem {
            partition_key: fields.partition_key,
            registry_id: fields.registry_id,
            repository_id: fields.repository_id,
            document_type: fields.document_type,
            repository: fields.repository,
            version: fields.version,
            created_at: fields.created_at,
            deleted_at: fields.deleted_at,
            no_change: fields.no_change,
            no_delete: fields.no_delete,
            no_list: fields.no_list,
            no_read: fields.no_read,
            annotation_artifact_created: fields.annotation_artifact_created,
            annotation_oci_artifact_created: fields.annotation_oci_artifact_created,
            state: fields.state,
        }
    }

    /// A copy of each field of the record.
    pub fn to_fields(&self) -> (r: BaseItemFields)
        ensures
            r@ == self@,
    {
        BaseItemFields {
            partition_key: self.partition_key.clone(),
            registry_id: self.registry_id.clone(),
            repository_id: self.repository_id.clone(),
            document_type: self.document_type.clone(),
            repository: self.repository.clone(),
            version: self.version.clone(),
            created_at: self.created_at.clone(),
            deleted_at: self.deleted_at.clone(),
            no_change: self.no_change,
            no_delete: self.no_delete,
            no_list: self.no_list,
            no_read: self.no_read,
            annotation_artifact_created: self.annotation_artifact_created.clone(),
            annotation_oci_artifact_created: self.annotation_oci_artifact_created.clone(),
            state: self.state,
        }
    }

    /// The two texts that identify a row: partition key, then registry id.
    pub fn get_row_id(&self) -> (r: (&String, &String))
        ensures
            (r.0@, r.1@) == self@.row_id(),
    {
        (&self.partition_key, &self.registry_id)
    }

    /// Sets the partition key and the registry id; nothing else changes.
    pub fn set_row_id(&mut self, partition_key: &str, registry_id: &str)
        ensures
            final(self)@ == old(self)@.with_row_id(partition_key@, registry_id@),
    {
        self.partition_key = partition_key.to_owned();
        self.registry_id = registry_id.to_owned();
    }
}

/// What a record type offers to be stored: a domain identity that its own
/// fields define, and the base record that it embeds.
///
/// The spec functions speak of a record's view. The three laws say that the
/// base record can be exchanged without touching anything else, and that a
/// clone has the view of the record it was cloned from.
pub trait Item: Clone + View + Sized {
    /// The partition of the domain identity.
    spec fn spec_partition(v: Self::V) -> Seq<char>;

    /// The id of the domain identity, unique within its partition.
    spec fn spec_id(v: Self::V) -> Seq<char>;

    /// The embedded base record.
    spec fn spec_base(v: Self::V) -> BaseItemView;

    /// The same record around another base record.
    spec fn spec_with_base(v: Self::V, base: BaseItemView) -> Self::V;

    /// Exchanging the base record changes the base record and neither part of
    /// the domain identity.
    proof fn lemma_with_base(v: Self::V, base: BaseItemView)
        ensures
            Self::spec_base(Self::spec_with_base(v, base)) == base,
            Self::spec_partition(Self::spec_with_base(v, base)) == Self::spec_partition(v),
            Self::spec_id(Self::spec_with_base(v, base)) == Self::spec_id(v),
    ;

    /// Putting a record's own base record back gives the record.
    proof fn lemma_with_own_base(v: Self::V)
        ensures
            Self::spec_with_base(v, Self::spec_base(v)) == v,
    ;

    /// A clone has the view of the record it was cloned from.
    proof fn lemma_clone(a: Self, b: Self)
        requires
            cloned::<Self>(a, b),
        ensures
            a@ == b@,
    ;

    /// The partition, a logical grouping.
    fn partition(&self) -> (r: &str)
        ensures
            r@ == Self::spec_partition(self@),
    ;

    /// The id within the partition.
    fn id(&self) -> (r: &str)
        ensures
            r@ == Self::spec_id(self@),
    ;

    /// The embedded base record.
    fn as_ref(&self) -> (r: &BaseItem)
        ensures
            r@ == Self::spec_base(self@),
    ;

    /// The embedded base record, to be changed in place.
    fn as_mut(&mut self) -> (r: &mut BaseItem)
        ensures
            r@ == Self::spec_base(old(self)@),
            final(self)@ == Self::spec_with_base(old(self)@, final(r)@),
    ;
}

/// The row identity under which a record is stored and found.
pub open spec fn row_id_of<T: Item>(v: T::V) -> (Seq<char>, Seq<char>) {
    T::spec_base(v).row_id()
}

/// The domain identity that a record's own fields define.
pub open spec fn domain_id_of<T: Item>(v: T::V) -> (Seq<char>, Seq<char>) {
    (T::spec_partition(v), T::spec_id(v))
}

/// The form in which `Create` stores a record: the record itself, its row
/// identity set to its domain identity.
pub open spec fn stored_form<T: Item>(v: T::V) -> T::V {
    T::spec_with_base(v, T::spec_base(v).with_row_id(T::spec_partition(v), T::spec_id(v)))
}

} // verus!
