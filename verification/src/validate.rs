//! Schema-level validation: inconsistencies such as duplicate names or
//! unresolvable type references are generation-time failures, reported before
//! any emission and never deferred to generated-code runtime behavior.

use vstd::prelude::*;

use crate::metadata::{is_type_def_for, trivially_derivable, trivially_derivable_name};
use crate::schema::{defs_view, string_eq, Category, Definition, DefinitionV};

verus! {

/// A schema-level inconsistency that aborts code generation.
#[derive(Debug)]
pub enum SchemaError {
    /// Two definitions of one category share a name.
    DuplicateName(String),
    /// A referenced type is neither built in nor defined anywhere.
    UnresolvedType(String),
}

/// Definitions `i` and `j` collide: same category, same name.
pub open spec fn dup_at(defs: Seq<DefinitionV>, i: int, j: int) -> bool {
    0 <= i < j < defs.len() && defs[i].category == defs[j].category && defs[i].name == defs[j].name
}

/// Some two definitions collide.
pub open spec fn has_duplicate(defs: Seq<DefinitionV>) -> bool {
    exists|i: int, j: int| dup_at(defs, i, j)
}

/// A base type name resolves: a built-in scalar, the sentinel, free-form
/// text, or a defined data shape.
pub open spec fn resolvable(defs: Seq<DefinitionV>, name: Seq<char>) -> bool {
    trivially_derivable_name(name) || exists|i: int| is_type_def_for(defs, i, name)
}

/// Every reference definition `i` makes resolves: each parameter's base name,
/// and, for an operation, its return type.
pub open spec fn def_refs_resolved(defs: Seq<DefinitionV>, i: int) -> bool {
    &&& forall|j: int|
        0 <= j < defs[i].params.len() ==> resolvable(
            defs,
            (#[trigger] defs[i].params[j]).ty.name,
        )
    &&& defs[i].category == Category::Functions ==> resolvable(defs, defs[i].ty.name)
}

/// A schema fit to generate from: no name collisions, every reference
/// resolved.
pub open spec fn schema_clean(defs: Seq<DefinitionV>) -> bool {
    !has_duplicate(defs) && forall|i: int|
        0 <= i < defs.len() ==> #[trigger] def_refs_resolved(defs, i)
}

/// Whether the name resolves against this definition set.
fn resolvable_x(definitions: &Vec<Definition>, name: &String) -> (r: bool)
    ensures
        r == resolvable(defs_view(definitions@), name@),
{
    let ghost dv = defs_view(definitions@);
    if trivially_derivable(name) {
        return true;
    }
    let mut k: usize = 0;
    while k < definitions.len()
        invariant
            k <= definitions@.len(),
            dv == defs_view(definitions@),
            dv.len() == definitions@.len(),
            forall|k2: int| 0 <= k2 < k ==> !is_type_def_for(dv, k2, name@),
        decreases definitions@.len() - k,
    {
        proof {
            assert(dv[k as int] == definitions@[k as int]@);
        }
        if definitions[k].category == Category::Types && string_eq(&definitions[k].ty.name, name) {
            proof {
                assert(is_type_def_for(dv, k as int, name@));
            }
            return true;
        }
        k += 1;
    }
    false
}

/// Validate the definition set before generation: succeeds exactly on a clean
/// schema, and otherwise reports a colliding name or an unresolved reference.
pub fn validate_definitions(definitions: &Vec<Definition>) -> (r: Result<(), SchemaError>)
    ensures
        r is Ok <==> schema_clean(defs_view(definitions@)),
        r matches Err(SchemaError::DuplicateName(n)) ==> exists|i: int, j: int|
            #[trigger] dup_at(defs_view(definitions@), i, j) && defs_view(definitions@)[i].name
                == n@,
        r matches Err(SchemaError::UnresolvedType(n)) ==> !resolvable(
            defs_view(definitions@),
            n@,
        ),
{
    let ghost dv = defs_view(definitions@);
    let n = definitions.len();
    let mut i: usize = 0;
    while i < n
        invariant
            i <= n,
            n == definitions@.len(),
            dv == defs_view(definitions@),
            dv.len() == definitions@.len(),
            forall|i2: int, j2: int| 0 <= i2 < i ==> !dup_at(dv, i2, j2),
        decreases n - i,
    {
        let mut j: usize = i + 1;
        while j < n
            invariant
                i < n,
                i < j,
                j <= n,
                n == definitions@.len(),
                dv == defs_view(definitions@),
                dv.len() == definitions@.len(),
                forall|j2: int| i < j2 < j ==> !dup_at(dv, i as int, j2),
            decreases n - j,
        {
            proof {
                assert(dv[i as int] == definitions@[i as int]@);
                assert(dv[j as int] == definitions@[j as int]@);
            }
            if definitions[i].category == definitions[j].category && string_eq(
                &definitions[i].name,
                &definitions[j].name,
            ) {
                proof {
                    assert(dup_at(dv, i as int, j as int));
                }
                return Err(SchemaError::DuplicateName(definitions[i].name.clone()));
            }
            j += 1;
        }
        proof {
            assert forall|j2: int| !dup_at(dv, i as int, j2) by {
                if (i as int) < j2 && j2 < n {
                }
            }
        }
        i += 1;
    }
    proof {
        if has_duplicate(dv) {
            let (a, b): (int, int) = choose|a: int, b: int| dup_at(dv, a, b);
            assert(false);
        }
    }
    let mut i: usize = 0;
    while i < n
        invariant
            i <= n,
            n == definitions@.len(),
            dv == defs_view(definitions@),
            dv.len() == definitions@.len(),
            !has_duplicate(dv),
            forall|k: int| 0 <= k < i ==> #[trigger] def_refs_resolved(dv, k),
        decreases n - i,
    {
        proof {
            assert(dv[i as int] == definitions@[i as int]@);
        }
        let m = definitions[i].params.len();
        let mut j: usize = 0;
        while j < m
            invariant
                i < n,
                j <= m,
                n == definitions@.len(),
                dv == defs_view(definitions@),
                dv.len() == definitions@.len(),
                m == dv[i as int].params.len(),
                forall|j2: int| 0 <= j2 < j ==> resolvable(
                    dv,
                    (#[trigger] dv[i as int].params[j2]).ty.name,
                ),
            decreases m - j,
        {
            proof {
                assert(dv[i as int] == definitions@[i as int]@);
                assert(dv[i as int].params[j as int] == definitions@[i as int].params@[j as int]@);
            }
            if !resolvable_x(definitions, &definitions[i].params[j].ty.name) {
                proof {
                    assert(!def_refs_resolved(dv, i as int));
                }
                return Err(SchemaError::UnresolvedType(definitions[i].params[j].ty.name.clone()));
            }
            j += 1;
        }
        if definitions[i].category == Category::Functions {
            if !resolvable_x(definitions, &definitions[i].ty.name) {
                proof {
                    assert(!def_refs_resolved(dv, i as int));
                }
                return Err(SchemaError::UnresolvedType(definitions[i].ty.name.clone()));
            }
        }
        proof {
            assert(def_refs_resolved(dv, i as int));
        }
        i += 1;
    }
    Ok(())
}

} // verus!
