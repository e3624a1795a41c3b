//! The laws this library states of its handles.

use vstd::prelude::*;
use crate::cursor::Cursor;
use crate::tu::TranslationUnit;
use crate::ty::Type;

verus! {

/// Law: taking the canonical cursor is idempotent — for every cursor
/// of a well-formed translation unit, the canonical cursor of its
/// canonical cursor is that canonical cursor itself.
pub proof fn lemma_canonical_idempotent(tu: &TranslationUnit, c: Cursor)
    requires
        tu.wf(),
        tu.valid_cursor(c),
    ensures
        tu.valid_cursor(Cursor::spec_canonical(*tu, c)),
        Cursor::spec_canonical(*tu, Cursor::spec_canonical(*tu, c)) == Cursor::spec_canonical(
            *tu,
            c,
        ),
{
}

/// Law: taking the canonical type is idempotent — for every type of a
/// well-formed translation unit, the canonical form of its canonical
/// form is that canonical form itself.
pub proof fn lemma_canonical_type_idempotent(tu: &TranslationUnit, t: Type)
    requires
        tu.wf(),
        tu.valid_type(t),
    ensures
        tu.valid_type(Type::spec_canonical(*tu, t)),
        Type::spec_canonical(*tu, Type::spec_canonical(*tu, t)) == Type::spec_canonical(*tu, t),
{
}

/// Law: cursor equality is reflexive and symmetric, and equal cursors
/// always hash equal — the hash key is a function of the same identity
/// field that equality compares.
pub proof fn lemma_cursor_eq_hash(a: Cursor, b: Cursor)
    ensures
        a == a,
        (a == b) ==> (b == a),
        (a == b) ==> a.id as u64 == b.id as u64,
{
}

} // verus!
