//! The generator: from the shape of a record type to the source of the
//! lifecycle operations bound to that type.
use crate::codegen::store_trait::{
    outcome_view, spec_parse, DescriptorError, GenericsPartsView, StoreTrait,
};
use vstd::prelude::*;

pub mod store_trait;

verus! {

/// What kind of type a declaration declares.
#[derive(Clone, Copy, Debug, PartialEq, Eq, Structural)]
pub enum ShapeKind {
    Struct,
    Enum,
    Union,
}

/// One field of a record type: its name, where it has one, and the names of
/// the markers put on it.
#[derive(Debug)]
pub struct FieldShape {
    pub name: Option<String>,
    pub markers: Vec<String>,
}

/// A field as plain values.
pub struct FieldShapeView {
    pub name: Option<Seq<char>>,
    pub markers: Seq<Seq<char>>,
}

impl View for FieldShape {
    type V = FieldShapeView;

    open spec fn view(&self) -> FieldShapeView {
        FieldShapeView {
            name: match self.name {
                Some(n) => Some(n@),
                None => None,
            },
            markers: self.markers@.map_values(|m: String| m@),
        }
    }
}

/// The shape of a declared type, as far as the generator reads it: its name,
/// its kind, its generics and `where` clause as they are written, and its
/// fields in the order of the declaration.
#[derive(Debug)]
pub struct TypeShape {
    pub ident: String,
    pub kind: ShapeKind,
    pub generics: String,
    pub where_clause: String,
    pub fields: Vec<FieldShape>,
}

/// A shape as plain values.
pub struct TypeShapeView {
    pub ident: Seq<char>,
    pub kind: ShapeKind,
    pub generics: Seq<char>,
    pub where_clause: Seq<char>,
    pub fields: Seq<FieldShapeView>,
}

impl View for TypeShape {
    type V = TypeShapeView;

    open spec fn view(&self) -> TypeShapeView {
        TypeShapeView {
            ident: self.ident@,
            kind: self.kind,
            generics: self.generics@,
            where_clause: self.where_clause@,
            fields: self.fields@.map_values(|f: FieldShape| f@),
        }
    }
}

/// The marker that designates the backing collection.
pub open spec fn storage_marker() -> Seq<char> {
    "storage"@
}

/// Whether a field is designated as the backing collection: it carries the
/// storage marker, and it has a name by which the operations can reach it.
pub open spec fn designates(f: FieldShapeView) -> bool {
    f.name is Some && f.markers.contains(storage_marker())
}

/// Whether `k` is the position of the first designated field.
pub open spec fn is_first_designated(fields: Seq<FieldShapeView>, k: int) -> bool {
    &&& 0 <= k < fields.len()
    &&& designates(fields[k])
    &&& forall|j: int| 0 <= j < k ==> !designates(#[trigger] fields[j])
}

/// The name of the backing field: that of the first designated field, or
/// nothing where no field is designated.
pub open spec fn spec_storage_field(fields: Seq<FieldShapeView>) -> Option<Seq<char>> {
    if exists|k: int| is_first_designated(fields, k) {
        fields[choose|k: int| is_first_designated(fields, k)].name
    } else {
        None
    }
}

/// Whether `markers` holds the storage marker.
pub fn has_storage_marker(markers: &Vec<String>) -> (r: bool)
    ensures
        r == markers@.map_values(|m: String| m@).contains(storage_marker()),
{
    let ghost views = markers@.map_values(|m: String| m@);
    let marker = "storage".to_owned();
    let mut i: usize = 0;
    while i < markers.len()
        invariant
            i <= markers.len(),
            marker@ == storage_marker(),
            views == markers@.map_values(|m: String| m@),
            forall|j: int| 0 <= j < i ==> views[j] != storage_marker(),
        decreases markers.len() - i,
    {
        if markers[i] == marker {
            assert(views[i as int] == storage_marker());
            return true;
        }
        i = i + 1;
    }
    false
}

/// The backing field of a record type: the first field, in the order of the
/// declaration, that is designated. Later designated fields are passed over.
pub fn storage_field(fields: &Vec<FieldShape>) -> (r: Option<String>)
    ensures
        match r {
            Some(name) => Some(name@),
            None => None,
        } == spec_storage_field(fields@.map_values(|f: FieldShape| f@)),
{
    let ghost views = fields@.map_values(|f: FieldShape| f@);
    let mut i: usize = 0;
    while i < fields.len()
        invariant
            i <= fields.len(),
            views == fields@.map_values(|f: FieldShape| f@),
            forall|j: int| 0 <= j < i ==> !designates(#[trigger] views[j]),
        decreases fields.len() - i,
    {
        let field = &fields[i];
        assert(views[i as int] == field@);
        match &field.name {
            Some(name) => {
                if has_storage_marker(&field.markers) {
                    proof {
                        assert(is_first_designated(views, i as int));
                        lemma_first_designated(views, i as int);
                    }
                    return Some(name.clone());
                }
            },
            None => {},
        }
        i = i + 1;
    }
    proof {
        if exists|k: int| is_first_designated(views, k) {
            let k = choose|k: int| is_first_designated(views, k);
            assert(!designates(views[k]));
        }
    }
    None
}

/// There is at most one first designated field.
pub proof fn lemma_first_designated(fields: Seq<FieldShapeView>, k: int)
    requires
        is_first_designated(fields, k),
    ensures
        spec_storage_field(fields) == fields[k].name,
{
    let c = choose|c: int| is_first_designated(fields, c);
    assert(is_first_designated(fields, c));
    if c < k {
        assert(!designates(fields[c]));
    } else if k < c {
        assert(!designates(fields[k]));
    }
}

/// The view of a generated text, or the error in its place.
pub open spec fn text_view(r: Result<String, DescriptorError>) -> Result<
    Seq<char>,
    DescriptorError,
> {
    match r {
        Ok(text) => Ok(text@),
        Err(e) => Err(e),
    }
}

/// What is generated for a shape whose generics the parser made `parts` of:
/// the whole text for its descriptor, or the error of the extraction.
pub open spec fn spec_derive(shape: TypeShapeView, parts: Option<GenericsPartsView>) -> Result<
    Seq<char>,
    DescriptorError,
> {
    match spec_parse(shape, parts) {
        Ok(d) => Ok(d.spec_emit()),
        Err(e) => Err(e),
    }
}

/// Generates the store of a record type: extracts the descriptor of `shape`
/// and emits the lifecycle operations bound to it, as source text. What the
/// parser makes of the generics decides between the outcomes that
/// `spec_derive` lists; a type that is no record with fields has none that
/// succeeds.
pub fn derive_store(shape: &TypeShape) -> (r: Result<String, DescriptorError>)
    ensures
        exists|parts: Option<GenericsPartsView>| text_view(r) == spec_derive(shape@, parts),
        shape@.kind != ShapeKind::Struct ==> r is Err,
{
    let parsed = StoreTrait::parse(shape);
    let ghost parts = choose|parts: Option<GenericsPartsView>|
        outcome_view(parsed) == spec_parse(shape@, parts);
    let r = match parsed {
        Ok(descriptor) => Ok(descriptor.emit()),
        Err(e) => Err(e),
    };
    assert(text_view(r) == spec_derive(shape@, parts));
    r
}

} // verus!
