use deref_derive::emit::derive_deref;
use deref_derive::emit::derive_deref_mut;
use deref_derive::model::DeriveError;
use deref_derive::model::Field;
use deref_derive::model::FieldRef;
use deref_derive::model::Generics;
use deref_derive::model::Shape;
use deref_derive::model::StructDef;
use deref_derive::resolve::resolve_target;

fn named_field(name: &str, ty: &str, marked: bool) -> Field {
    Field { ty: ty.to_string(), reference: FieldRef::Name(name.to_string()), marked }
}

fn positional_field(ordinal: usize, ty: &str, marked: bool) -> Field {
    Field { ty: ty.to_string(), reference: FieldRef::Ordinal(ordinal), marked }
}

fn no_generics() -> Generics {
    Generics { params: vec![], where_bounds: vec![] }
}

fn plain_def(ident: &str, shape: Shape) -> StructDef {
    StructDef { ident: ident.to_string(), generics: no_generics(), shape }
}

#[test]
fn single_named_field_is_target() {
    let def = plain_def("Foo", Shape::Named(vec![named_field("field", "String", false)]));
    let acc = derive_deref(def).unwrap();
    assert_eq!(acc.ident, "Foo");
    assert_eq!(acc.target_ty, "String");
    assert_eq!(acc.field, FieldRef::Name("field".to_string()));
}

#[test]
fn single_field_marker_is_irrelevant() {
    let unmarked = plain_def("Foo", Shape::Positional(vec![positional_field(0, "u32", false)]));
    let marked = plain_def("Foo", Shape::Positional(vec![positional_field(0, "u32", true)]));
    let a = derive_deref(unmarked).unwrap();
    let b = derive_deref(marked).unwrap();
    assert_eq!(a.field, FieldRef::Ordinal(0));
    assert_eq!(b.field, FieldRef::Ordinal(0));
    assert_eq!(a.target_ty, "u32");
}

#[test]
fn marked_field_among_two_is_target() {
    let shape = || {
        Shape::Named(vec![
            named_field("field", "u32", true),
            named_field("other_field", "String", false),
        ])
    };
    let acc = derive_deref(plain_def("Foo", shape())).unwrap();
    assert_eq!(acc.target_ty, "u32");
    assert_eq!(acc.field, FieldRef::Name("field".to_string()));
    let macc = derive_deref_mut(plain_def("Foo", shape())).unwrap();
    assert_eq!(macc.field, FieldRef::Name("field".to_string()));
}

#[test]
fn marker_position_is_irrelevant() {
    let shape = Shape::Named(vec![
        named_field("a", "u8", false),
        named_field("b", "u16", false),
        named_field("c", "u32", true),
    ]);
    let acc = derive_deref(plain_def("Foo", shape)).unwrap();
    assert_eq!(acc.target_ty, "u32");
    assert_eq!(acc.field, FieldRef::Name("c".to_string()));
}

#[test]
fn zero_markers_is_ambiguous() {
    let shape = Shape::Named(vec![
        named_field("a", "u32", false),
        named_field("b", "String", false),
    ]);
    let err = derive_deref(plain_def("Foo", shape)).unwrap_err();
    assert_eq!(err, DeriveError::AmbiguousTarget);
    assert_eq!(err.message(), "expected exactly one field with the designated marker");
}

#[test]
fn two_markers_is_ambiguous() {
    let shape = Shape::Positional(vec![
        positional_field(0, "u32", true),
        positional_field(1, "String", true),
    ]);
    let err = derive_deref_mut(plain_def("Foo", shape)).unwrap_err();
    assert_eq!(err, DeriveError::AmbiguousTarget);
}

#[test]
fn unit_struct_is_unsupported() {
    let err = derive_deref(plain_def("Foo", Shape::Unit)).unwrap_err();
    assert_eq!(err, DeriveError::ShapeUnsupported);
    assert_eq!(err.message(), "cannot be derived for unit structs");
    let err = derive_deref_mut(plain_def("Foo", Shape::Unit)).unwrap_err();
    assert_eq!(err, DeriveError::ShapeUnsupported);
}

#[test]
fn empty_named_struct_is_ambiguous() {
    let err = derive_deref(plain_def("Foo", Shape::Named(vec![]))).unwrap_err();
    assert_eq!(err, DeriveError::AmbiguousTarget);
}

#[test]
fn both_capabilities_resolve_to_same_field() {
    let shape = || {
        Shape::Positional(vec![
            positional_field(0, "u32", false),
            positional_field(1, "String", true),
        ])
    };
    let acc = derive_deref(plain_def("Foo", shape())).unwrap();
    let macc = derive_deref_mut(plain_def("Foo", shape())).unwrap();
    assert_eq!(acc.field, macc.field);
    assert_eq!(acc.field, FieldRef::Ordinal(1));
}

#[test]
fn generics_are_preserved() {
    let generics = Generics {
        params: vec!["T: Clone".to_string(), "'a".to_string()],
        where_bounds: vec!["T: Default".to_string()],
    };
    let def = StructDef {
        ident: "Foo".to_string(),
        generics: generics.clone(),
        shape: Shape::Named(vec![named_field("field", "&'a T", false)]),
    };
    let acc = derive_deref(def).unwrap();
    assert_eq!(acc.generics, generics);
    let def = StructDef {
        ident: "Foo".to_string(),
        generics: generics.clone(),
        shape: Shape::Named(vec![named_field("field", "&'a T", false)]),
    };
    let macc = derive_deref_mut(def).unwrap();
    assert_eq!(macc.generics, generics);
}

#[test]
fn resolver_reports_target_index() {
    let single = vec![named_field("field", "u32", false)];
    assert_eq!(resolve_target(&single), Ok(0));
    let marked_last = vec![
        named_field("a", "u8", false),
        named_field("b", "u16", false),
        named_field("c", "u32", true),
    ];
    assert_eq!(resolve_target(&marked_last), Ok(2));
    let none_marked = vec![named_field("a", "u8", false), named_field("b", "u16", false)];
    assert_eq!(resolve_target(&none_marked), Err(DeriveError::AmbiguousTarget));
}
