//! The data model: a structure definition as handed over by the host
//! build pipeline, reduced to plain values, and the two fatal resolution
//! failures.

use vstd::prelude::*;

verus! {

/// How a field is reached on the receiver: by name in a named-field
/// structure, by zero-based ordinal in a positional (tuple-like) one.
#[derive(Debug, Clone, PartialEq, Eq)]
pub enum FieldRef {
    Name(String),
    Ordinal(usize),
}

/// One field of a structure: its type as source text, the way it is
/// reached, and whether it carries the explicit opt-in marker that
/// designates it as the deref target.
#[derive(Debug, Clone, PartialEq, Eq)]
pub struct Field {
    pub ty: String,
    pub reference: FieldRef,
    pub marked: bool,
}

/// The generic parameters and where-bounds of a structure, carried as
/// source text. Emission threads them through unchanged onto the
/// generated impl.
#[derive(Debug, Clone, PartialEq, Eq)]
pub struct Generics {
    pub params: Vec<String>,
    pub where_bounds: Vec<String>,
}

/// The shape of a structure: named fields, positional fields, or no
/// storage at all (a unit structure).
#[derive(Debug, Clone, PartialEq, Eq)]
pub enum Shape {
    Named(Vec<Field>),
    Positional(Vec<Field>),
    Unit,
}

/// A structure definition: identifier, generics, and shape. One value is
/// consumed per derivation; nothing persists across invocations.
#[derive(Debug, Clone, PartialEq, Eq)]
pub struct StructDef {
    pub ident: String,
    pub generics: Generics,
    pub shape: Shape,
}

/// The fields a shape declares, in declaration order; a unit structure
/// declares none.
pub open spec fn fields_of(shape: Shape) -> Seq<Field> {
    match shape {
        Shape::Named(fields) => fields@,
        Shape::Positional(fields) => fields@,
        Shape::Unit => Seq::<Field>::empty(),
    }
}

impl StructDef {
    /// A definition is well formed when every named field is reached by a
    /// name and every positional field by its own zero-based ordinal.
    pub open spec fn wf(self) -> bool {
        match self.shape {
            Shape::Named(fields) => forall|i: int|
                0 <= i < fields@.len() ==> #[trigger] fields@[i].reference is Name,
            Shape::Positional(fields) => forall|i: int|
                0 <= i < fields@.len() ==> #[trigger] fields@[i].reference == FieldRef::Ordinal(
                    i as usize,
                ),
            Shape::Unit => true,
        }
    }
}

/// The two fatal resolution failures. Either a complete accessor is
/// emitted or one of these aborts the derivation; there is no silent
/// fallback field.
#[derive(Debug, Clone, Copy, PartialEq, Eq, Structural)]
pub enum DeriveError {
    /// The structure has no fields at all, so no accessor can project.
    ShapeUnsupported,
    /// A multi-field structure carries zero or several markers.
    AmbiguousTarget,
}

impl DeriveError {
    /// The human-readable text the host build pipeline surfaces.
    pub fn message(&self) -> (r: &'static str)
        ensures
            *self is ShapeUnsupported ==> r@ == "cannot be derived for unit structs"@,
            *self is AmbiguousTarget ==> r@ == "expected exactly one field with the designated marker"@,
    {
        match self {
            DeriveError::ShapeUnsupported => "cannot be derived for unit structs",
            DeriveError::AmbiguousTarget => "expected exactly one field with the designated marker",
        }
    }
}

} // verus!
