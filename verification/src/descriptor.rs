//! A content descriptor in the style of an OCI object descriptor: the record
//! type that the examples store.
use crate::item::{BaseItem, BaseItemView, Item};
use std::collections::BTreeMap;
use vstd::prelude::*;

verus! {

/// A descriptor of some content: what it is, how large, and under which
/// digest it is known.
#[derive(Debug)]
pub struct Descriptor {
    /// Digest of the content.
    digest: String,
    /// Media type of the content.
    media_type: String,
    /// Artifact type of the content.
    artifact_type: String,
    /// Size of the content in bytes.
    size: usize,
    /// Annotations, ordered by key.
    annotations: BTreeMap<String, String>,
    /// The base record under which the descriptor is stored and found.
    _base_item: BaseItem,
}

/// A descriptor as plain values.
pub struct DescriptorView {
    pub digest: Seq<char>,
    pub media_type: Seq<char>,
    pub artifact_type: Seq<char>,
    pub size: usize,
    pub annotations: Map<String, String>,
    pub base: BaseItemView,
}

impl View for Descriptor {
    type V = DescriptorView;

    closed spec fn view(&self) -> DescriptorView {
        DescriptorView {
            digest: self.digest@,
            media_type: self.media_type@,
            artifact_type: self.artifact_type@,
            size: self.size,
            annotations: self.annotations@,
            base: self._base_item@,
        }
    }
}

impl Clone for Descriptor {
    fn clone(&self) -> (r: Self)
        ensures
            r@ == self@,
    {
        Descriptor {
            digest: self.digest.clone(),
            media_type: self.media_type.clone(),
            artifact_type: self.artifact_type.clone(),
            size: self.size,
            annotations: self.annotations.clone(),
            _base_item: self._base_item.clone(),
        }
    }
}

impl Descriptor {
    /// A descriptor of the given content. The artifact type starts out as the
    /// media type, the base record as the empty one.
    pub fn new(digest: &str, media_type: &str, size: usize, annotations: BTreeMap<String, String>) -> (d: Self)
        ensures
            d@ == (DescriptorView {
                digest: digest@,
                media_type: media_type@,
                artifact_type: media_type@,
                size,
                annotations: annotations@,
                base: BaseItemView::empty(),
            }),
    {
        Descriptor {
            digest: digest.to_owned(),
            media_type: media_type.to_owned(),
            artifact_type: media_type.to_owned(),
            size,
            annotations,
            _base_item: BaseItem::default(),
        }
    }

    /// The descriptor with the given fields, around the given base record.
    pub fn from_fields(
        digest: String,
        media_type: String,
        artifact_type: String,
        size: usize,
        annotations: BTreeMap<String, String>,
        base: BaseItem,
    ) -> (d: Self)
        ensures
            d@ == (DescriptorView {
                digest: digest@,
                media_type: media_type@,
                artifact_type: artifact_type@,
                size,
                annotations: annotations@,
                base: base@,
            }),
    {
        Descriptor { digest, media_type, artifact_type, size, annotations, _base_item: base }
    }

    /// The digest of the content.
    pub fn digest(&self) -> (r: &str)
        ensures
            r@ == self@.digest,
    {
        self.digest.as_str()
    }

    /// The media type of the content.
    pub fn media_type(&self) -> (r: &str)
        ensures
            r@ == self@.media_type,
    {
        self.media_type.as_str()
    }

    /// The artifact type of the content.
    pub fn artifact_type(&self) -> (r: &str)
        ensures
            r@ == self@.artifact_type,
    {
        self.artifact_type.as_str()
    }

    /// The size of the content in bytes.
    pub fn size(&self) -> (r: usize)
        ensures
            r == self@.size,
    {
        self.size
    }

    /// The annotations of the content.
    pub fn annotations(&self) -> (r: &BTreeMap<String, String>)
        ensures
            r@ == self@.annotations,
    {
        &self.annotations
    }

    /// Sets the digest; nothing else changes, the row identity included.
    pub fn set_digest(&mut self, digest: &str)
        ensures
            final(self)@ == (DescriptorView { digest: digest@, ..old(self)@ }),
    {
        self.digest = digest.to_owned();
    }
}

impl Item for Descriptor {
    open spec fn spec_partition(v: DescriptorView) -> Seq<char> {
        v.media_type
    }

    open spec fn spec_id(v: DescriptorView) -> Seq<char> {
        v.digest
    }

    open spec fn spec_base(v: DescriptorView) -> BaseItemView {
        v.base
    }

    open spec fn spec_with_base(v: DescriptorView, base: BaseItemView) -> DescriptorView {
        DescriptorView { base, ..v }
    }

    proof fn lemma_with_base(v: DescriptorView, base: BaseItemView) {
    }

    proof fn lemma_with_own_base(v: DescriptorView) {
    }

    proof fn lemma_clone(a: Self, b: Self) {
    }

    fn partition(&self) -> (r: &str) {
        self.media_type.as_str()
    }

    fn id(&self) -> (r: &str) {
        self.digest.as_str()
    }

    fn as_ref(&self) -> (r: &BaseItem) {
        &self._base_item
    }

    fn as_mut(&mut self) -> (r: &mut BaseItem) {
        &mut self._base_item
    }
}

} // verus!
