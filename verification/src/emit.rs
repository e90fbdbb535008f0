//! Accessor emission: the two entry points and the abstract impl
//! descriptions they hand back to the host build pipeline.
//!
//! Each entry point consumes one structure definition, resolves the
//! target field, and emits a description of one capability impl — or the
//! fatal failure that aborted resolution. The host pipeline renders a
//! description to source tokens; a rendered accessor is marked for
//! unconditional inlining and tagged as not hand-written.

use vstd::prelude::*;

use crate::model::DeriveError;
use crate::model::Field;
use crate::model::FieldRef;
use crate::model::Generics;
use crate::model::Shape;
use crate::model::StructDef;
use crate::model::fields_of;
use crate::resolve::has_target;
use crate::resolve::is_target;
use crate::resolve::lemma_target_index_is;
use crate::resolve::resolve_target;
use crate::resolve::target_index;

verus! {

/// An emitted read-only indirection impl: it declares the target field's
/// type as the capability's associated result type, and its accessor body
/// returns an immutable reference to the target field.
#[derive(Debug, Clone, PartialEq, Eq)]
pub struct RefAccessor {
    pub ident: String,
    pub generics: Generics,
    pub target_ty: String,
    pub field: FieldRef,
}

/// An emitted mutable indirection impl: its accessor body returns a
/// mutable reference to the target field. It declares no result type of
/// its own — by convention it reuses the read-only capability's, so it is
/// only meaningful beside a read-only impl for the same structure; that
/// co-requirement is left to the host type system.
#[derive(Debug, Clone, PartialEq, Eq)]
pub struct MutAccessor {
    pub ident: String,
    pub generics: Generics,
    pub field: FieldRef,
}

fn ref_from_fields(ident: String, generics: Generics, fields: Vec<Field>) -> (r: Result<
    RefAccessor,
    DeriveError,
>)
    ensures
        match r {
            Ok(acc) => {
                &&& has_target(fields@)
                &&& acc.ident == ident
                &&& acc.generics == generics
                &&& acc.target_ty == fields@[target_index(fields@)].ty
                &&& acc.field == fields@[target_index(fields@)].reference
            },
            Err(e) => e == DeriveError::AmbiguousTarget && !has_target(fields@),
        },
{
    let mut taken = fields;
    match resolve_target(&taken) {
        Ok(i) => {
            proof {
                lemma_target_index_is(taken@, i as int);
            }
            let f = taken.remove(i);
            Ok(RefAccessor { ident, generics, target_ty: f.ty, field: f.reference })
        },
        Err(e) => Err(e),
    }
}

fn mut_from_fields(ident: String, generics: Generics, fields: Vec<Field>) -> (r: Result<
    MutAccessor,
    DeriveError,
>)
    ensures
        match r {
            Ok(acc) => {
                &&& has_target(fields@)
                &&& acc.ident == ident
                &&& acc.generics == generics
                &&& acc.field == fields@[target_index(fields@)].reference
            },
            Err(e) => e == DeriveError::AmbiguousTarget && !has_target(fields@),
        },
{
    let mut taken = fields;
    match resolve_target(&taken) {
        Ok(i) => {
            proof {
                lemma_target_index_is(taken@, i as int);
            }
            let f = taken.remove(i);
            Ok(MutAccessor { ident, generics, field: f.reference })
        },
        Err(e) => Err(e),
    }
}

/// Entry point for the read-only capability: resolve the target field of
/// `def` and emit the read-only impl description, with the structure's
/// generics threaded through unchanged. A unit structure fails with
/// `Shape Unsupported`; a multi-field structure without a unique marker
/// fails with `Ambiguous Target`.
pub fn derive_deref(def: StructDef) -> (r: Result<RefAccessor, DeriveError>)
    ensures
        match r {
            Ok(acc) => {
                &&& !(def.shape is Unit)
                &&& has_target(fields_of(def.shape))
                &&& acc.ident == def.ident
                &&& acc.generics == def.generics
                &&& acc.target_ty == fields_of(def.shape)[target_index(fields_of(def.shape))].ty
                &&& acc.field == fields_of(def.shape)[target_index(fields_of(def.shape))].reference
            },
            Err(DeriveError::ShapeUnsupported) => def.shape is Unit,
            Err(DeriveError::AmbiguousTarget) => !(def.shape is Unit) && !has_target(
                fields_of(def.shape),
            ),
        },
{
    let StructDef { ident, generics, shape } = def;
    match shape {
        Shape::Unit => Err(DeriveError::ShapeUnsupported),
        Shape::Named(fields) => ref_from_fields(ident, generics, fields),
        Shape::Positional(fields) => ref_from_fields(ident, generics, fields),
    }
}

/// Entry point for the mutable capability: identical resolution, but the
/// emitted description is of the mutable impl. Both entry points share
/// the resolution logic, so deriving both on one structure projects to
/// the same target field.
pub fn derive_deref_mut(def: StructDef) -> (r: Result<MutAccessor, DeriveError>)
    ensures
        match r {
            Ok(acc) => {
                &&& !(def.shape is Unit)
                &&& has_target(fields_of(def.shape))
                &&& acc.ident == def.ident
                &&& acc.generics == def.generics
                &&& acc.field == fields_of(def.shape)[target_index(fields_of(def.shape))].reference
            },
            Err(DeriveError::ShapeUnsupported) => def.shape is Unit,
            Err(DeriveError::AmbiguousTarget) => !(def.shape is Unit) && !has_target(
                fields_of(def.shape),
            ),
        },
{
    let StructDef { ident, generics, shape } = def;
    match shape {
        Shape::Unit => Err(DeriveError::ShapeUnsupported),
        Shape::Named(fields) => mut_from_fields(ident, generics, fields),
        Shape::Positional(fields) => mut_from_fields(ident, generics, fields),
    }
}

/// Law: in a well-formed positional structure, the target field is
/// reached by its own zero-based ordinal, so an emitted accessor for it
/// projects through exactly that ordinal.
pub proof fn lemma_positional_target_ordinal(def: StructDef, i: int)
    requires
        def.wf(),
        def.shape is Positional,
        is_target(fields_of(def.shape), i),
    ensures
        fields_of(def.shape)[i].reference == FieldRef::Ordinal(i as usize),
{
}

} // verus!
