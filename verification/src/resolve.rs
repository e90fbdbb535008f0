//! Target resolution: select exactly one field of a structure to expose
//! through the indirection capabilities.
//!
//! The policy is a strict precedence rule. A structure with exactly one
//! field resolves to that field unconditionally; a multi-field structure
//! resolves to its unique marker-carrying field, and fails with
//! `Ambiguous Target` when zero or several fields carry the marker.

use vstd::prelude::*;

use crate::model::DeriveError;
use crate::model::Field;

verus! {

/// How many fields of the sequence carry the opt-in marker.
pub open spec fn count_marked(fields: Seq<Field>) -> nat
    decreases fields.len(),
{
    if fields.len() == 0 {
        0
    } else {
        count_marked(fields.drop_last()) + if fields.last().marked {
            1nat
        } else {
            0nat
        }
    }
}

/// Index `i` is the resolution target of `fields`: the only field of a
/// one-field structure (marker or no marker), or the unique
/// marker-carrying field of a multi-field structure.
pub open spec fn is_target(fields: Seq<Field>, i: int) -> bool {
    &&& 0 <= i < fields.len()
    &&& if fields.len() == 1 {
        i == 0
    } else {
        fields[i].marked && count_marked(fields) == 1
    }
}

/// Resolution succeeds at all: one field in total, or exactly one marker.
pub open spec fn has_target(fields: Seq<Field>) -> bool {
    fields.len() == 1 || count_marked(fields) == 1
}

/// The index resolution settles on, when one exists.
pub open spec fn target_index(fields: Seq<Field>) -> int {
    choose|i: int| is_target(fields, i)
}

proof fn lemma_count_zero_no_marked(fields: Seq<Field>, i: int)
    requires
        count_marked(fields) == 0,
        0 <= i < fields.len(),
    ensures
        !fields[i].marked,
    decreases fields.len(),
{
    if i < fields.len() - 1 {
        lemma_count_zero_no_marked(fields.drop_last(), i);
        assert(fields.drop_last()[i] == fields[i]);
    }
}

proof fn lemma_marked_unique(fields: Seq<Field>, i: int, j: int)
    requires
        count_marked(fields) == 1,
        0 <= i < fields.len(),
        fields[i].marked,
        0 <= j < fields.len(),
        fields[j].marked,
    ensures
        i == j,
    decreases fields.len(),
{
    let rest = fields.drop_last();
    if fields.last().marked {
        if i < fields.len() - 1 {
            assert(rest[i] == fields[i]);
            lemma_count_zero_no_marked(rest, i);
        }
        if j < fields.len() - 1 {
            assert(rest[j] == fields[j]);
            lemma_count_zero_no_marked(rest, j);
        }
    } else {
        assert(i < fields.len() - 1 && j < fields.len() - 1);
        assert(rest[i] == fields[i] && rest[j] == fields[j]);
        lemma_marked_unique(rest, i, j);
    }
}

/// Law: the target field of a structure is unique, so deriving the
/// read-only and the mutable capability on the same structure resolves
/// to the same target field for both.
pub proof fn lemma_target_unique(fields: Seq<Field>, i: int, j: int)
    requires
        is_target(fields, i),
        is_target(fields, j),
    ensures
        i == j,
{
    if fields.len() != 1 {
        lemma_marked_unique(fields, i, j);
    }
}

/// Whenever some index is a target, `target_index` names exactly it.
pub proof fn lemma_target_index_is(fields: Seq<Field>, i: int)
    requires
        is_target(fields, i),
    ensures
        target_index(fields) == i,
        is_target(fields, target_index(fields)),
{
    assert(exists|j: int| is_target(fields, j)) by {
        assert(is_target(fields, i));
    }
    lemma_target_unique(fields, i, target_index(fields));
}

/// Law: a structure with exactly one field resolves to that field,
/// whether or not it carries the marker.
pub proof fn lemma_single_field_target(fields: Seq<Field>)
    requires
        fields.len() == 1,
    ensures
        is_target(fields, 0),
        target_index(fields) == 0,
{
    lemma_target_index_is(fields, 0);
}

/// Law: a multi-field structure whose only marker sits at position `k`
/// resolves to field `k`, irrespective of where `k` lies among the
/// fields.
pub proof fn lemma_marked_field_target(fields: Seq<Field>, k: int)
    requires
        fields.len() != 1,
        count_marked(fields) == 1,
        0 <= k < fields.len(),
        fields[k].marked,
    ensures
        is_target(fields, k),
        target_index(fields) == k,
{
    lemma_target_index_is(fields, k);
}

proof fn lemma_count_marked_take_step(fields: Seq<Field>, i: int)
    requires
        0 <= i < fields.len(),
    ensures
        count_marked(fields.take(i + 1)) == count_marked(fields.take(i)) + if fields[i].marked {
            1nat
        } else {
            0nat
        },
{
    assert(fields.take(i + 1).drop_last() =~= fields.take(i));
    assert(fields.take(i + 1).last() == fields[i]);
}

/// The Target Resolver: pick the single field, or the unique
/// marker-carrying one, and fail with `Ambiguous Target` otherwise.
pub fn resolve_target(fields: &Vec<Field>) -> (r: Result<usize, DeriveError>)
    ensures
        match r {
            Ok(i) => is_target(fields@, i as int),
            Err(e) => e == DeriveError::AmbiguousTarget && !has_target(fields@),
        },
{
    if fields.len() == 1 {
        return Ok(0);
    }
    let mut count: usize = 0;
    let mut found: usize = 0;
    let mut i: usize = 0;
    while i < fields.len()
        invariant
            i <= fields@.len(),
            count == count_marked(fields@.take(i as int)),
            count <= i,
            count > 0 ==> found < i && fields@[found as int].marked,
        decreases fields@.len() - i,
    {
        proof {
            lemma_count_marked_take_step(fields@, i as int);
        }
        if fields[i].marked {
            if count == 0 {
                found = i;
            }
            count = count + 1;
        }
        i = i + 1;
    }
    proof {
        assert(fields@.take(fields@.len() as int) =~= fields@);
    }
    if count == 1 {
        Ok(found)
    } else {
        Err(DeriveError::AmbiguousTarget)
    }
}

} // verus!
