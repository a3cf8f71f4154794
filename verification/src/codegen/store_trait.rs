//! The type descriptor and the synthesis of the lifecycle operations from it.
use crate::codegen::{spec_storage_field, storage_field, ShapeKind, TypeShape, TypeShapeView};
use quote::ToTokens;
use vstd::prelude::*;
use vstd::string::StringExecFns;

verus! {

/// `syn::Generics`: a parsed generics declaration, carried unread from the
/// parser to the two functions that print it.
#[verifier::external_type_specification]
#[verifier::external_body]
pub struct ExGenerics(syn::Generics);

/// Parses the text of a generics declaration with `syn::parse_str`, as
/// `syn::Generics`. Nothing is claimed of the outcome: `None` stands for text
/// that the parser does not take, whatever its reason.
#[verifier::external_body]
fn parse_generics(text: &str) -> (r: Option<syn::Generics>) {
    syn::parse_str::<syn::Generics>(text).ok()
}

/// Calls `syn::Generics::split_for_impl` and prints its first two parts: the
/// generics as they stand behind `impl`, and as they stand behind the type's
/// name. Nothing is claimed of the two texts.
#[verifier::external_body]
fn split_for_impl(generics: &syn::Generics) -> (r: (String, String)) {
    let (impl_generics, ty_generics, _) = generics.split_for_impl();
    (impl_generics.to_token_stream().to_string(), ty_generics.to_token_stream().to_string())
}

/// Calls `syn::Generics::type_params` and gives the name of each type
/// parameter, in the order of the declaration. Nothing is claimed of the
/// names.
#[verifier::external_body]
fn type_params(generics: &syn::Generics) -> (r: Vec<String>) {
    generics.type_params().map(|p| p.ident.to_string()).collect()
}

/// Why no descriptor could be made of a shape.
#[derive(Clone, Copy, Debug, PartialEq, Eq, Structural)]
pub enum DescriptorError {
    /// The generics are not written as generics are.
    Syntax,
    /// The type is no record with fields: an enum, or a union.
    UnsupportedShape,
    /// The type has no type parameter that could stand for the item type.
    MissingItemType,
}

impl DescriptorError {
    /// The message of the error as plain text.
    pub open spec fn spec_message(self) -> Seq<char> {
        match self {
            DescriptorError::Syntax => "malformed generics"@,
            _ => "missing or unsupported storage designation"@,
        }
    }

    /// The message to report.
    pub fn message(&self) -> (r: &'static str)
        ensures
            r@ == self.spec_message(),
    {
        match self {
            DescriptorError::Syntax => "malformed generics",
            _ => "missing or unsupported storage designation",
        }
    }
}

/// What the parser makes of a generics declaration: its two printed forms and
/// the names of its type parameters.
#[derive(Debug)]
pub struct GenericsParts {
    /// The generics as they stand behind `impl`: with bounds, without
    /// defaults.
    pub impl_generics: String,
    /// The generics as they stand behind the type's name: the names alone.
    pub ty_generics: String,
    /// The names of the type parameters, in the order of the declaration.
    pub type_params: Vec<String>,
}

/// The parts of a generics declaration as plain values.
pub struct GenericsPartsView {
    pub impl_generics: Seq<char>,
    pub ty_generics: Seq<char>,
    pub type_params: Seq<Seq<char>>,
}

impl View for GenericsParts {
    type V = GenericsPartsView;

    open spec fn view(&self) -> GenericsPartsView {
        GenericsPartsView {
            impl_generics: self.impl_generics@,
            ty_generics: self.ty_generics@,
            type_params: self.type_params@.map_values(|p: String| p@),
        }
    }
}

/// The type descriptor: what the synthesis reads of a record type.
#[derive(Debug)]
pub struct StoreTrait {
    ident: String,
    impl_generics: String,
    ty_generics: String,
    where_clause: String,
    item_param: String,
    storage_field: Option<String>,
}

/// A type descriptor as plain values.
pub struct StoreTraitView {
    /// The name of the record type.
    pub ident: Seq<char>,
    /// Its generics as they stand behind `impl`.
    pub impl_generics: Seq<char>,
    /// Its generics as they stand behind its name.
    pub ty_generics: Seq<char>,
    /// Its `where` clause as it is written; empty where it has none.
    pub where_clause: Seq<char>,
    /// Its first type parameter: the item type of the operations.
    pub item_param: Seq<char>,
    /// The field that is the backing collection; nothing where the type
    /// itself is.
    pub storage_field: Option<Seq<char>>,
}

impl View for StoreTrait {
    type V = StoreTraitView;

    closed spec fn view(&self) -> StoreTraitView {
        StoreTraitView {
            ident: self.ident@,
            impl_generics: self.impl_generics@,
            ty_generics: self.ty_generics@,
            where_clause: self.where_clause@,
            item_param: self.item_param@,
            storage_field: match self.storage_field {
                Some(f) => Some(f@),
                None => None,
            },
        }
    }
}

/// The view of what the parser made of a generics declaration.
pub open spec fn parts_view(parts: Option<GenericsParts>) -> Option<GenericsPartsView> {
    match parts {
        Some(p) => Some(p@),
        None => None,
    }
}

/// The views of a result of extraction.
pub open spec fn outcome_view(r: Result<StoreTrait, DescriptorError>) -> Result<
    StoreTraitView,
    DescriptorError,
> {
    match r {
        Ok(d) => Ok(d@),
        Err(e) => Err(e),
    }
}

/// The descriptor of a shape whose generics the parser made `parts` of; or
/// why there is none. Generics that do not parse come first, then a type that
/// is no record with fields, then the lack of a type parameter. The backing
/// field is the first designated one, the item type the first type parameter.
pub open spec fn spec_parse(shape: TypeShapeView, parts: Option<GenericsPartsView>) -> Result<
    StoreTraitView,
    DescriptorError,
> {
    match parts {
        None => Err(DescriptorError::Syntax),
        Some(p) => if shape.kind != ShapeKind::Struct {
            Err(DescriptorError::UnsupportedShape)
        } else if p.type_params.len() == 0 {
            Err(DescriptorError::MissingItemType)
        } else {
            Ok(
                StoreTraitView {
                    ident: shape.ident,
                    impl_generics: p.impl_generics,
                    ty_generics: p.ty_generics,
                    where_clause: shape.where_clause,
                    item_param: p.type_params[0],
                    storage_field: spec_storage_field(shape.fields),
                },
            )
        },
    }
}


impl StoreTraitView {
    /// The place that holds the records: the backing field of `self`, or
    /// `self` where the type is its own storage.
    pub open spec fn spec_storage_receiver(self) -> Seq<char> {
        match self.storage_field {
            Some(field) => "self."@ + field,
            None => "self"@,
        }
    }

    /// The storage receiver as an operation hands it on: a borrow of the
    /// backing field, mutable where the operation changes the records; or
    /// `self`, which is such a borrow already.
    pub open spec fn spec_borrowed_receiver(self, mutable: bool) -> Seq<char> {
        match self.storage_field {
            Some(_) => if mutable {
                "&mut "@ + self.spec_storage_receiver()
            } else {
                "&"@ + self.spec_storage_receiver()
            },
            None => self.spec_storage_receiver(),
        }
    }

    /// The opening of an impl of `name` for the type: the trait takes the item
    /// type, the type its own generics, and the bounds and the `where` clause
    /// stand as they were declared.
    pub open spec fn spec_impl_header(self, name: Seq<char>) -> Seq<char> {
        "impl"@ + self.impl_generics + " "@ + name + "<"@ + self.item_param + "> for "@
            + self.ident + self.ty_generics + " "@ + self.where_clause + " {\n"@
    }

    /// The impl of `Records`: the type holds and takes what its backing field
    /// holds and takes. A type that is its own storage has that impl already,
    /// and nothing is generated.
    pub open spec fn spec_records_trait(self) -> Seq<char> {
        match self.storage_field {
            Some(_) => spec_records_text(
                self.spec_impl_header("Records"@),
                self.item_param,
                self.spec_storage_receiver(),
            ),
            None => Seq::empty(),
        }
    }

    /// The impl that marks the type as a complete store.
    pub open spec fn spec_store_trait(self) -> Seq<char> {
        self.spec_impl_header("Store"@) + "}\n"@
    }

    /// The impl of `Read`.
    pub open spec fn spec_read_trait(self) -> Seq<char> {
        spec_read_text(
            self.spec_impl_header("Read"@),
            self.item_param,
            self.spec_borrowed_receiver(false),
        )
    }

    /// The impl of `Create`.
    pub open spec fn spec_create_trait(self) -> Seq<char> {
        spec_create_text(
            self.spec_impl_header("Create"@),
            self.item_param,
            self.spec_borrowed_receiver(true),
        )
    }

    /// The impl of `Replace`.
    pub open spec fn spec_replace_trait(self) -> Seq<char> {
        spec_replace_text(
            self.spec_impl_header("Replace"@),
            self.item_param,
            self.spec_borrowed_receiver(true),
        )
    }

    /// The impl of `Delete`.
    pub open spec fn spec_delete_trait(self) -> Seq<char> {
        spec_delete_text(
            self.spec_impl_header("Delete"@),
            self.item_param,
            self.spec_borrowed_receiver(true),
        )
    }

    /// All that is generated for the type, to be verified where it is put: the
    /// impls of `Records`, `Read`, `Create`, `Delete`, `Replace` and `Store`,
    /// in this order. The text names the traits, `Error`, `Seq` and the four
    /// functions that it calls by their bare names: they are in scope where
    /// the text is put.
    pub open spec fn spec_emit(self) -> Seq<char> {
        "verus! {\n\n"@ + self.spec_records_trait() + self.spec_read_trait()
            + self.spec_create_trait() + self.spec_delete_trait() + self.spec_replace_trait()
            + self.spec_store_trait() + "\n} // verus!\n"@
    }
}

/// The source of `Records` behind `header`, for items of type `param`: the
/// type holds and takes what the place `receiver` holds and takes.
pub open spec fn spec_records_text(
    header: Seq<char>,
    param: Seq<char>,
    receiver: Seq<char>,
) -> Seq<char> {
    header + "    closed spec fn records(&self) -> Seq<"@ + param + "::V> {\n        "@ + receiver
        + ".records()\n    }\n\n    closed spec fn takes(&self, v: "@ + param
        + "::V) -> bool {\n        "@ + receiver + ".takes(v)\n    }\n}\n"@
}

/// The source of `Read` behind `header`, for items of type `param`: a read
/// from the storage that `receiver` hands on.
pub open spec fn spec_read_text(header: Seq<char>, param: Seq<char>, receiver: Seq<char>) -> Seq<
    char,
> {
    header + "    fn read(&self, item: &"@ + param + ") -> (r: Result<&"@ + param
        + ", Error>) {\n        read_from("@ + receiver + ", item)\n    }\n}\n"@
}

/// The source of `Create` behind `header`, for items of type `param`: a
/// create in the storage that `receiver` hands on.
pub open spec fn spec_create_text(header: Seq<char>, param: Seq<char>, receiver: Seq<char>) -> Seq<
    char,
> {
    header + "    fn create(&mut self, item: &"@ + param + ") -> (r: Result<&"@ + param
        + ", Error>) {\n        create_in("@ + receiver + ", item)\n    }\n}\n"@
}

/// The source of `Replace` behind `header`, for items of type `param`: a
/// replace in the storage that `receiver` hands on.
pub open spec fn spec_replace_text(
    header: Seq<char>,
    param: Seq<char>,
    receiver: Seq<char>,
) -> Seq<char> {
    header + "    fn replace(&mut self, item: &"@ + param + ") -> (r: Result<&"@ + param
        + ", Error>) {\n        replace_in("@ + receiver + ", item)\n    }\n}\n"@
}

/// The source of `Delete` behind `header`, for items of type `param`: a
/// delete from the storage that `receiver` hands on.
pub open spec fn spec_delete_text(header: Seq<char>, param: Seq<char>, receiver: Seq<char>) -> Seq<
    char,
> {
    header + "    fn delete(&mut self, item: &"@ + param + ") -> (r: Result<"@ + param
        + ", Error>) {\n        delete_from("@ + receiver + ", item)\n    }\n}\n"@
}

/// The backing field enters the generated operations through the storage
/// receiver alone: two descriptors that differ in nothing but the backing
/// field generate the same text around their receivers.
pub proof fn lemma_receiver_alone(a: StoreTraitView, b: StoreTraitView)
    requires
        a == (StoreTraitView { storage_field: a.storage_field, ..b }),
    ensures
        a.spec_store_trait() == b.spec_store_trait(),
        a.spec_read_trait() == spec_read_text(
            b.spec_impl_header("Read"@),
            b.item_param,
            a.spec_borrowed_receiver(false),
        ),
        a.spec_create_trait() == spec_create_text(
            b.spec_impl_header("Create"@),
            b.item_param,
            a.spec_borrowed_receiver(true),
        ),
        a.spec_replace_trait() == spec_replace_text(
            b.spec_impl_header("Replace"@),
            b.item_param,
            a.spec_borrowed_receiver(true),
        ),
        a.spec_delete_trait() == spec_delete_text(
            b.spec_impl_header("Delete"@),
            b.item_param,
            a.spec_borrowed_receiver(true),
        ),
{
}

fn records_text(header: String, param: &str, receiver: &str) -> (r: String)
    ensures
        r@ == spec_records_text(header@, param@, receiver@),
{
    let mut out = header;
    out.append("    closed spec fn records(&self) -> Seq<");
    out.append(param);
    out.append("::V> {\n        ");
    out.append(receiver);
    out.append(".records()\n    }\n\n    closed spec fn takes(&self, v: ");
    out.append(param);
    out.append("::V) -> bool {\n        ");
    out.append(receiver);
    out.append(".takes(v)\n    }\n}\n");
    out
}

fn read_text(header: String, param: &str, receiver: &str) -> (r: String)
    ensures
        r@ == spec_read_text(header@, param@, receiver@),
{
    let mut out = header;
    out.append("    fn read(&self, item: &");
    out.append(param);
    out.append(") -> (r: Result<&");
    out.append(param);
    out.append(", Error>) {\n        read_from(");
    out.append(receiver);
    out.append(", item)\n    }\n}\n");
    out
}

fn create_text(header: String, param: &str, receiver: &str) -> (r: String)
    ensures
        r@ == spec_create_text(header@, param@, receiver@),
{
    let mut out = header;
    out.append("    fn create(&mut self, item: &");
    out.append(param);
    out.append(") -> (r: Result<&");
    out.append(param);
    out.append(", Error>) {\n        create_in(");
    out.append(receiver);
    out.append(", item)\n    }\n}\n");
    out
}

fn replace_text(header: String, param: &str, receiver: &str) -> (r: String)
    ensures
        r@ == spec_replace_text(header@, param@, receiver@),
{
    let mut out = header;
    out.append("    fn replace(&mut self, item: &");
    out.append(param);
    out.append(") -> (r: Result<&");
    out.append(param);
    out.append(", Error>) {\n        replace_in(");
    out.append(receiver);
    out.append(", item)\n    }\n}\n");
    out
}

fn delete_text(header: String, param: &str, receiver: &str) -> (r: String)
    ensures
        r@ == spec_delete_text(header@, param@, receiver@),
{
    let mut out = header;
    out.append("    fn delete(&mut self, item: &");
    out.append(param);
    out.append(") -> (r: Result<");
    out.append(param);
    out.append(", Error>) {\n        delete_from(");
    out.append(receiver);
    out.append(", item)\n    }\n}\n");
    out
}

impl StoreTrait {
    /// Extracts the descriptor of `shape`, given what the parser made of its
    /// generics (`None`: they did not parse).
    pub fn from_parts(shape: &TypeShape, parts: Option<GenericsParts>) -> (r: Result<
        StoreTrait,
        DescriptorError,
    >)
        ensures
            outcome_view(r) == spec_parse(shape@, parts_view(parts)),
    {
        let parts = match parts {
            Some(p) => p,
            None => {
                return Err(DescriptorError::Syntax);
            },
        };
        match shape.kind {
            ShapeKind::Struct => {},
            _ => {
                return Err(DescriptorError::UnsupportedShape);
            },
        }
        if parts.type_params.len() == 0 {
            return Err(DescriptorError::MissingItemType);
        }
        let item_param = parts.type_params[0].clone();
        Ok(
            StoreTrait {
                ident: shape.ident.clone(),
                impl_generics: parts.impl_generics,
                ty_generics: parts.ty_generics,
                where_clause: shape.where_clause.clone(),
                item_param,
                storage_field: storage_field(&shape.fields),
            },
        )
    }

    /// Extracts the descriptor of `shape`. The generics are handed to the
    /// parser as they are written; what it makes of them decides between the
    /// outcomes that `spec_parse` lists.
    pub fn parse(shape: &TypeShape) -> (r: Result<StoreTrait, DescriptorError>)
        ensures
            exists|parts: Option<GenericsPartsView>| outcome_view(r) == spec_parse(shape@, parts),
            shape@.kind != ShapeKind::Struct ==> r is Err,
            r matches Ok(d) ==> {
                &&& d@.ident == shape@.ident
                &&& d@.where_clause == shape@.where_clause
                &&& d@.storage_field == spec_storage_field(shape@.fields)
            },
    {
        let parts = match parse_generics(shape.generics.as_str()) {
            Some(generics) => {
                let (impl_generics, ty_generics) = split_for_impl(&generics);
                Some(GenericsParts { impl_generics, ty_generics, type_params: type_params(&generics) })
            },
            None => None,
        };
        let ghost given = parts_view(parts);
        let r = Self::from_parts(shape, parts);
        assert(outcome_view(r) == spec_parse(shape@, given));
        r
    }

    /// The place that holds the records: `self.` and the backing field, or
    /// `self`.
    pub fn storage_receiver(&self) -> (r: String)
        ensures
            r@ == self@.spec_storage_receiver(),
    {
        match &self.storage_field {
            Some(field) => {
                let mut out = "self.".to_owned();
                out.append(field.as_str());
                out
            },
            None => "self".to_owned(),
        }
    }

    /// The storage receiver as an operation hands it on.
    fn borrowed_receiver(&self, mutable: bool) -> (r: String)
        ensures
            r@ == self@.spec_borrowed_receiver(mutable),
    {
        let place = self.storage_receiver();
        match &self.storage_field {
            Some(_) => {
                let mut out = if mutable {
                    "&mut ".to_owned()
                } else {
                    "&".to_owned()
                };
                out.append(place.as_str());
                out
            },
            None => place,
        }
    }

    /// The opening of an impl of the trait `name` for the type.
    fn impl_header(&self, name: &str) -> (r: String)
        ensures
            r@ == self@.spec_impl_header(name@),
    {
        let mut out = "impl".to_owned();
        out.append(self.impl_generics.as_str());
        out.append(" ");
        out.append(name);
        out.append("<");
        out.append(self.item_param.as_str());
        out.append("> for ");
        out.append(self.ident.as_str());
        out.append(self.ty_generics.as_str());
        out.append(" ");
        out.append(self.where_clause.as_str());
        out.append(" {\n");
        out
    }

    /// The source of the impl of `Records`; empty for a type that is its own
    /// storage.
    pub fn records_trait(&self) -> (r: String)
        ensures
            r@ == self@.spec_records_trait(),
    {
        match &self.storage_field {
            Some(_) => {
                let receiver = self.storage_receiver();
                records_text(
                    self.impl_header("Records"),
                    self.item_param.as_str(),
                    receiver.as_str(),
                )
            },
            None => String::new(),
        }
    }

    /// The source of the impl that marks the type as a complete store.
    pub fn store_trait(&self) -> (r: String)
        ensures
            r@ == self@.spec_store_trait(),
    {
        let mut out = self.impl_header("Store");
        out.append("}\n");
        out
    }

    /// The source of the impl of `Create`.
    pub fn create_trait(&self) -> (r: String)
        ensures
            r@ == self@.spec_create_trait(),
    {
        let receiver = self.borrowed_receiver(true);
        create_text(self.impl_header("Create"), self.item_param.as_str(), receiver.as_str())
    }

    /// The source of the impl of `Read`.
    pub fn read_trait(&self) -> (r: String)
        ensures
            r@ == self@.spec_read_trait(),
    {
        let receiver = self.borrowed_receiver(false);
        read_text(self.impl_header("Read"), self.item_param.as_str(), receiver.as_str())
    }

    /// The source of the impl of `Replace`.
    pub fn replace_trait(&self) -> (r: String)
        ensures
            r@ == self@.spec_replace_trait(),
    {
        let receiver = self.borrowed_receiver(true);
        replace_text(self.impl_header("Replace"), self.item_param.as_str(), receiver.as_str())
    }

    /// The source of the impl of `Delete`.
    pub fn delete_trait(&self) -> (r: String)
        ensures
            r@ == self@.spec_delete_trait(),
    {
        let receiver = self.borrowed_receiver(true);
        delete_text(self.impl_header("Delete"), self.item_param.as_str(), receiver.as_str())
    }

    /// All that is generated for the type, as one text.
    pub fn emit(&self) -> (r: String)
        ensures
            r@ == self@.spec_emit(),
    {
        let mut out = "verus! {\n\n".to_owned();
        out.append(self.records_trait().as_str());
        out.append(self.read_trait().as_str());
        out.append(self.create_trait().as_str());
        out.append(self.delete_trait().as_str());
        out.append(self.replace_trait().as_str());
        out.append(self.store_trait().as_str());
        out.append("\n} // verus!\n");
        out
    }
}

} // verus!
