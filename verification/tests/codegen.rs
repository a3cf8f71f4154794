use talk_lib::codegen::storage_field;
use talk_lib::{
    derive_store, DescriptorError, FieldShape, GenericsParts, ShapeKind, StoreTrait, TypeShape,
};

fn field(name: Option<&str>, markers: &[&str]) -> FieldShape {
    FieldShape {
        name: name.map(|n| n.to_string()),
        markers: markers.iter().map(|m| m.to_string()).collect(),
    }
}

fn shape(kind: ShapeKind, generics: &str, fields: Vec<FieldShape>) -> TypeShape {
    TypeShape {
        ident: "MemoryStore".to_string(),
        kind,
        generics: generics.to_string(),
        where_clause: String::new(),
        fields,
    }
}

fn parts(impl_generics: &str, ty_generics: &str, type_params: &[&str]) -> Option<GenericsParts> {
    Some(GenericsParts {
        impl_generics: impl_generics.to_string(),
        ty_generics: ty_generics.to_string(),
        type_params: type_params.iter().map(|p| p.to_string()).collect(),
    })
}

fn memory_store_fields() -> Vec<FieldShape> {
    vec![field(Some("items"), &["storage"]), field(Some("store_info"), &[])]
}

fn squeeze(text: &str) -> String {
    text.chars().filter(|c| !c.is_whitespace()).collect()
}

#[test]
fn storage_field_is_the_first_designated_field() {
    let fields = vec![
        field(Some("info"), &[]),
        field(Some("first"), &["storage"]),
        field(Some("second"), &["storage"]),
    ];
    assert_eq!(storage_field(&fields), Some("first".to_string()));
}

#[test]
fn storage_field_of_unmarked_fields_is_none() {
    assert_eq!(storage_field(&vec![]), None);
    assert_eq!(storage_field(&vec![field(Some("items"), &[]), field(Some("info"), &["serde"])]), None);
}

#[test]
fn storage_field_passes_over_a_marked_field_without_a_name() {
    let fields = vec![field(None, &["storage"]), field(Some("named"), &["storage"])];
    assert_eq!(storage_field(&fields), Some("named".to_string()));
    assert_eq!(storage_field(&vec![field(None, &["storage"])]), None);
}

#[test]
fn storage_field_finds_the_marker_among_others() {
    let fields = vec![field(Some("items"), &["serde", "doc", "storage", "allow"])];
    assert_eq!(storage_field(&fields), Some("items".to_string()));
}

#[test]
fn storage_field_takes_the_marker_letter_for_letter() {
    let fields = vec![field(Some("a"), &["Storage"]), field(Some("b"), &["storages"]), field(Some("c"), &[""])];
    assert_eq!(storage_field(&fields), None);
}

#[test]
fn generics_that_do_not_parse_are_a_syntax_error() {
    let s = shape(ShapeKind::Struct, "<T", memory_store_fields());
    assert_eq!(StoreTrait::from_parts(&s, None).err(), Some(DescriptorError::Syntax));
    assert_eq!(StoreTrait::parse(&s).err(), Some(DescriptorError::Syntax));
    assert_eq!(derive_store(&s).err(), Some(DescriptorError::Syntax));
}

#[test]
fn an_enum_is_an_unsupported_shape() {
    let s = shape(ShapeKind::Enum, "<T: Item>", vec![]);
    assert_eq!(
        StoreTrait::from_parts(&s, parts("<T: Item>", "<T>", &["T"])).err(),
        Some(DescriptorError::UnsupportedShape)
    );
    assert_eq!(StoreTrait::parse(&s).err(), Some(DescriptorError::UnsupportedShape));
    assert_eq!(derive_store(&s).err(), Some(DescriptorError::UnsupportedShape));
}

#[test]
fn a_union_is_an_unsupported_shape() {
    let s = shape(ShapeKind::Union, "<T: Item>", memory_store_fields());
    assert_eq!(StoreTrait::parse(&s).err(), Some(DescriptorError::UnsupportedShape));
}

#[test]
fn a_syntax_error_comes_before_an_unsupported_shape() {
    let s = shape(ShapeKind::Enum, "<<", vec![]);
    assert_eq!(StoreTrait::from_parts(&s, None).err(), Some(DescriptorError::Syntax));
    assert_eq!(StoreTrait::parse(&s).err(), Some(DescriptorError::Syntax));
}

#[test]
fn a_type_without_a_type_parameter_has_no_item_type() {
    let s = shape(ShapeKind::Struct, "", memory_store_fields());
    assert_eq!(
        StoreTrait::from_parts(&s, parts("", "", &[])).err(),
        Some(DescriptorError::MissingItemType)
    );
    assert_eq!(StoreTrait::parse(&s).err(), Some(DescriptorError::MissingItemType));
    let lifetimes_only = shape(ShapeKind::Struct, "<'a, const N: usize>", memory_store_fields());
    assert_eq!(StoreTrait::parse(&lifetimes_only).err(), Some(DescriptorError::MissingItemType));
    assert_eq!(derive_store(&lifetimes_only).err(), Some(DescriptorError::MissingItemType));
}

#[test]
fn an_unsupported_shape_comes_before_a_missing_item_type() {
    let s = shape(ShapeKind::Enum, "", vec![]);
    assert_eq!(
        StoreTrait::from_parts(&s, parts("", "", &[])).err(),
        Some(DescriptorError::UnsupportedShape)
    );
}

#[test]
fn the_messages_of_the_errors() {
    assert_eq!(DescriptorError::Syntax.message(), "malformed generics");
    assert_eq!(
        DescriptorError::UnsupportedShape.message(),
        "missing or unsupported storage designation"
    );
    assert_eq!(
        DescriptorError::MissingItemType.message(),
        "missing or unsupported storage designation"
    );
}

#[test]
fn the_receiver_is_the_backing_field_or_the_type_itself() {
    let with_field = shape(ShapeKind::Struct, "<T>", memory_store_fields());
    let d = StoreTrait::from_parts(&with_field, parts("<T>", "<T>", &["T"])).unwrap();
    assert_eq!(d.storage_receiver(), "self.items");
    let without = shape(ShapeKind::Struct, "<T>", vec![field(Some("items"), &[])]);
    let d = StoreTrait::from_parts(&without, parts("<T>", "<T>", &["T"])).unwrap();
    assert_eq!(d.storage_receiver(), "self");
}

#[test]
fn the_operations_generated_for_a_backing_field() {
    let mut s = shape(ShapeKind::Struct, "<T: Item>", memory_store_fields());
    s.where_clause = "where T: Send".to_string();
    let d = StoreTrait::from_parts(&s, parts("<T: Item>", "<T>", &["T"])).unwrap();
    assert_eq!(
        d.records_trait(),
        "impl<T: Item> Records<T> for MemoryStore<T> where T: Send {\n    closed spec fn records(&self) -> Seq<T::V> {\n        self.items.records()\n    }\n\n    closed spec fn takes(&self, v: T::V) -> bool {\n        self.items.takes(v)\n    }\n}\n"
    );
    assert_eq!(
        d.read_trait(),
        "impl<T: Item> Read<T> for MemoryStore<T> where T: Send {\n    fn read(&self, item: &T) -> (r: Result<&T, Error>) {\n        read_from(&self.items, item)\n    }\n}\n"
    );
    assert_eq!(
        d.create_trait(),
        "impl<T: Item> Create<T> for MemoryStore<T> where T: Send {\n    fn create(&mut self, item: &T) -> (r: Result<&T, Error>) {\n        create_in(&mut self.items, item)\n    }\n}\n"
    );
    assert_eq!(
        d.replace_trait(),
        "impl<T: Item> Replace<T> for MemoryStore<T> where T: Send {\n    fn replace(&mut self, item: &T) -> (r: Result<&T, Error>) {\n        replace_in(&mut self.items, item)\n    }\n}\n"
    );
    assert_eq!(
        d.delete_trait(),
        "impl<T: Item> Delete<T> for MemoryStore<T> where T: Send {\n    fn delete(&mut self, item: &T) -> (r: Result<T, Error>) {\n        delete_from(&mut self.items, item)\n    }\n}\n"
    );
    assert_eq!(d.store_trait(), "impl<T: Item> Store<T> for MemoryStore<T> where T: Send {\n}\n");
}

#[test]
fn the_operations_generated_for_a_type_that_is_its_own_storage() {
    let s = shape(ShapeKind::Struct, "<R: Item>", vec![field(Some("inner"), &[])]);
    let d = StoreTrait::from_parts(&s, parts("<R: Item>", "<R>", &["R"])).unwrap();
    assert_eq!(d.records_trait(), "");
    assert_eq!(
        d.read_trait(),
        "impl<R: Item> Read<R> for MemoryStore<R>  {\n    fn read(&self, item: &R) -> (r: Result<&R, Error>) {\n        read_from(self, item)\n    }\n}\n"
    );
    assert_eq!(
        d.create_trait(),
        "impl<R: Item> Create<R> for MemoryStore<R>  {\n    fn create(&mut self, item: &R) -> (r: Result<&R, Error>) {\n        create_in(self, item)\n    }\n}\n"
    );
    assert_eq!(
        d.replace_trait(),
        "impl<R: Item> Replace<R> for MemoryStore<R>  {\n    fn replace(&mut self, item: &R) -> (r: Result<&R, Error>) {\n        replace_in(self, item)\n    }\n}\n"
    );
    assert_eq!(
        d.delete_trait(),
        "impl<R: Item> Delete<R> for MemoryStore<R>  {\n    fn delete(&mut self, item: &R) -> (r: Result<R, Error>) {\n        delete_from(self, item)\n    }\n}\n"
    );
    assert_eq!(d.store_trait(), "impl<R: Item> Store<R> for MemoryStore<R>  {\n}\n");
}

#[test]
fn the_two_receivers_are_all_that_differs() {
    let with_field = shape(ShapeKind::Struct, "<T: Item>", memory_store_fields());
    let without = shape(ShapeKind::Struct, "<T: Item>", vec![]);
    let a = StoreTrait::from_parts(&with_field, parts("<T: Item>", "<T>", &["T"])).unwrap();
    let b = StoreTrait::from_parts(&without, parts("<T: Item>", "<T>", &["T"])).unwrap();
    assert_eq!(a.read_trait().replace("&self.items", "self"), b.read_trait());
    assert_eq!(a.create_trait().replace("&mut self.items", "self"), b.create_trait());
    assert_eq!(a.replace_trait().replace("&mut self.items", "self"), b.replace_trait());
    assert_eq!(a.delete_trait().replace("&mut self.items", "self"), b.delete_trait());
    assert_eq!(a.store_trait(), b.store_trait());
}

#[test]
fn emit_is_the_six_impls_in_order() {
    let s = shape(ShapeKind::Struct, "<T: Item>", memory_store_fields());
    let d = StoreTrait::from_parts(&s, parts("<T: Item>", "<T>", &["T"])).unwrap();
    let expected = format!(
        "verus! {{\n\n{}{}{}{}{}{}\n}} // verus!\n",
        d.records_trait(),
        d.read_trait(),
        d.create_trait(),
        d.delete_trait(),
        d.replace_trait(),
        d.store_trait()
    );
    assert_eq!(d.emit(), expected);
}

#[test]
fn the_item_type_is_the_first_type_parameter() {
    let s = shape(ShapeKind::Struct, "<A, B>", memory_store_fields());
    let d = StoreTrait::from_parts(&s, parts("<A, B>", "<A, B>", &["A", "B"])).unwrap();
    assert_eq!(
        d.store_trait(),
        "impl<A, B> Store<A> for MemoryStore<A, B>  {\n}\n"
    );
}

#[test]
fn parse_has_the_generics_split_by_the_parser() {
    let s = shape(ShapeKind::Struct, "<T: Item = Descriptor>", memory_store_fields());
    let d = StoreTrait::parse(&s).unwrap();
    // Bounds stay, the default goes, and the type takes the name alone.
    assert_eq!(squeeze(&d.store_trait()), "impl<T:Item>Store<T>forMemoryStore<T>{}");
    assert_eq!(d.storage_receiver(), "self.items");
}

#[test]
fn parse_skips_lifetimes_and_constants_for_the_item_type() {
    let s = shape(ShapeKind::Struct, "<'a, const N: usize, T: Item + 'a, U>", vec![]);
    let d = StoreTrait::parse(&s).unwrap();
    assert_eq!(
        squeeze(&d.store_trait()),
        "impl<'a,constN:usize,T:Item+'a,U>Store<T>forMemoryStore<'a,N,T,U>{}"
    );
    assert_eq!(d.storage_receiver(), "self");
}

#[test]
fn derive_store_generates_the_store_of_a_record_type() {
    let mut s = shape(ShapeKind::Struct, "<T>", memory_store_fields());
    s.where_clause = "where T: Item".to_string();
    let text = derive_store(&s).unwrap();
    assert_eq!(
        squeeze(&text),
        squeeze(
            "verus! {
            impl<T> Records<T> for MemoryStore<T> where T: Item {
                closed spec fn records(&self) -> Seq<T::V> { self.items.records() }
                closed spec fn takes(&self, v: T::V) -> bool { self.items.takes(v) }
            }
            impl<T> Read<T> for MemoryStore<T> where T: Item {
                fn read(&self, item: &T) -> (r: Result<&T, Error>) { read_from(&self.items, item) }
            }
            impl<T> Create<T> for MemoryStore<T> where T: Item {
                fn create(&mut self, item: &T) -> (r: Result<&T, Error>) { create_in(&mut self.items, item) }
            }
            impl<T> Delete<T> for MemoryStore<T> where T: Item {
                fn delete(&mut self, item: &T) -> (r: Result<T, Error>) { delete_from(&mut self.items, item) }
            }
            impl<T> Replace<T> for MemoryStore<T> where T: Item {
                fn replace(&mut self, item: &T) -> (r: Result<&T, Error>) { replace_in(&mut self.items, item) }
            }
            impl<T> Store<T> for MemoryStore<T> where T: Item {
            }
            } // verus!"
        )
    );
}

#[test]
fn what_is_generated_is_made_of_rust_tokens() {
    let s = shape(ShapeKind::Struct, "<'a, T: Item + 'a>", memory_store_fields());
    let text = derive_store(&s).unwrap();
    let file = syn::parse_str::<syn::File>(&text).unwrap();
    assert_eq!(file.items.len(), 1);
}
