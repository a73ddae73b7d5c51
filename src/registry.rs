//! The registry: all entity definitions compiled together, with the checks
//! that span entities.
use vstd::prelude::*;
use crate::schema::{
    build_descriptor, check_definition, compiled_from, reverse_accessor, reverse_name,
    structural_fault, EntityBody, EntityDef, EntityDescriptor, FieldDef, StructuralError,
};

verus! {

/// The declared fields of a definition; none when it has no named fields.
pub open spec fn declared_fields(def: EntityDef) -> Seq<FieldDef> {
    match def.body {
        EntityBody::Named(fs) => fs@,
        _ => Seq::empty(),
    }
}

/// The structural fault of the first faulty definition from position `i` on.
pub open spec fn first_fault(defs: Seq<EntityDef>, i: int) -> Option<StructuralError>
    decreases defs.len() - i,
{
    if i < 0 || i >= defs.len() {
        None
    } else if structural_fault(defs[i]) is Some {
        structural_fault(defs[i])
    } else {
        first_fault(defs, i + 1)
    }
}

pub open spec fn names_distinct(defs: Seq<EntityDef>) -> bool {
    forall|i: int, j: int| 0 <= i < j < defs.len() ==> #[trigger] defs[i].name@ != #[trigger] defs[j].name@
}

pub open spec fn declares(defs: Seq<EntityDef>, name: Seq<char>) -> bool {
    exists|j: int| 0 <= j < defs.len() && #[trigger] defs[j].name@ == name
}

/// Every relation of every definition targets a declared entity.
pub open spec fn targets_declared(defs: Seq<EntityDef>) -> bool {
    forall|i: int, a: int|
        0 <= i < defs.len() && 0 <= a < declared_fields(defs[i]).len() && (#[trigger] declared_fields(defs[i])[a]).relation is Some
            ==> declares(defs, declared_fields(defs[i])[a].relation->0.target@)
}

/// Field `f` of entity `n1` and field `g` of entity `n2` target the same
/// entity under the same collection accessor name.
pub open spec fn reverse_clash(n1: Seq<char>, f: FieldDef, n2: Seq<char>, g: FieldDef) -> bool {
    &&& f.relation is Some
    &&& g.relation is Some
    &&& f.relation->0.target@ == g.relation->0.target@
    &&& reverse_name(n1, f.relation->0) == reverse_name(n2, g.relation->0)
}

pub open spec fn entities_clash(d1: EntityDef, d2: EntityDef) -> bool {
    exists|a: int, b: int|
        0 <= a < declared_fields(d1).len() && 0 <= b < declared_fields(d2).len() && #[trigger] reverse_clash(
            d1.name@,
            declared_fields(d1)[a],
            d2.name@,
            #[trigger] declared_fields(d2)[b],
        )
}

pub open spec fn reverse_unique(defs: Seq<EntityDef>) -> bool {
    forall|i: int, j: int| 0 <= i < j < defs.len() ==> !entities_clash(#[trigger] defs[i], #[trigger] defs[j])
}

/// The first fault of a set of definitions: a fault of one definition, then
/// a shared name, then a relation to an undeclared entity, then two
/// collection accessors of the same name on one entity.
pub open spec fn registry_fault(defs: Seq<EntityDef>) -> Option<StructuralError> {
    if first_fault(defs, 0) is Some {
        first_fault(defs, 0)
    } else if !names_distinct(defs) {
        Some(StructuralError::DuplicateEntity)
    } else if !targets_declared(defs) {
        Some(StructuralError::MissingRelationTarget)
    } else if !reverse_unique(defs) {
        Some(StructuralError::AmbiguousRelation)
    } else {
        None
    }
}

fn fields_of(def: &EntityDef) -> (r: &Vec<FieldDef>)
    requires
        def.body is Named,
    ensures
        r@ == declared_fields(*def),
{
    match &def.body {
        EntityBody::Named(fs) => fs,
        _ => unreached(),
    }
}

fn check_each(defs: &Vec<EntityDef>) -> (r: Option<StructuralError>)
    ensures
        r == first_fault(defs@, 0),
        r is None ==> forall|i: int| 0 <= i < defs@.len() ==> structural_fault(#[trigger] defs@[i]) is None,
{
    let mut i: usize = 0;
    while i < defs.len()
        invariant
            i <= defs@.len(),
            first_fault(defs@, 0) == first_fault(defs@, i as int),
            forall|k: int| 0 <= k < i ==> structural_fault(#[trigger] defs@[k]) is None,
        decreases defs.len() - i,
    {
        if let Some(e) = check_definition(&defs[i]) {
            return Some(e);
        }
        i = i + 1;
    }
    None
}

fn check_names(defs: &Vec<EntityDef>) -> (r: bool)
    ensures
        r == names_distinct(defs@),
{
    let n = defs.len();
    let mut i: usize = 0;
    while i < n
        invariant
            n == defs@.len(),
            i <= n,
            forall|a: int, b: int| 0 <= a < b < n && a < i ==> #[trigger] defs@[a].name@ != #[trigger] defs@[b].name@,
        decreases n - i,
    {
        let mut j: usize = i + 1;
        while j < n
            invariant
                n == defs@.len(),
                i < n,
                i + 1 <= j <= n,
                forall|a: int, b: int| 0 <= a < b < n && a < i ==> #[trigger] defs@[a].name@ != #[trigger] defs@[b].name@,
                forall|b: int| i < b < j ==> defs@[i as int].name@ != #[trigger] defs@[b].name@,
            decreases n - j,
        {
            if defs[i].name == defs[j].name {
                return false;
            }
            j = j + 1;
        }
        i = i + 1;
    }
    true
}

fn declared(defs: &Vec<EntityDef>, name: &String) -> (r: bool)
    ensures
        r == declares(defs@, name@),
{
    let mut j: usize = 0;
    while j < defs.len()
        invariant
            j <= defs@.len(),
            forall|k: int| 0 <= k < j ==> #[trigger] defs@[k].name@ != name@,
        decreases defs.len() - j,
    {
        if defs[j].name == *name {
            return true;
        }
        j = j + 1;
    }
    false
}

fn check_targets_declared(defs: &Vec<EntityDef>) -> (r: bool)
    requires
        forall|i: int| 0 <= i < defs@.len() ==> (#[trigger] defs@[i]).body is Named,
    ensures
        r == targets_declared(defs@),
{
    let mut i: usize = 0;
    while i < defs.len()
        invariant
            i <= defs@.len(),
            forall|k: int| 0 <= k < defs@.len() ==> (#[trigger] defs@[k]).body is Named,
            forall|k: int, a: int|
                0 <= k < i && 0 <= a < declared_fields(defs@[k]).len() && (#[trigger] declared_fields(defs@[k])[a]).relation is Some
                    ==> declares(defs@, declared_fields(defs@[k])[a].relation->0.target@),
        decreases defs.len() - i,
    {
        let fs = fields_of(&defs[i]);
        let mut a: usize = 0;
        while a < fs.len()
            invariant
                i < defs@.len(),
                fs@ == declared_fields(defs@[i as int]),
                a <= fs@.len(),
                forall|k: int, b: int|
                    0 <= k < i && 0 <= b < declared_fields(defs@[k]).len() && (#[trigger] declared_fields(defs@[k])[b]).relation is Some
                        ==> declares(defs@, declared_fields(defs@[k])[b].relation->0.target@),
                forall|b: int|
                    0 <= b < a && (#[trigger] fs@[b]).relation is Some ==> declares(defs@, fs@[b].relation->0.target@),
            decreases fs.len() - a,
        {
            if let Some(rel) = &fs[a].relation {
                if !declared(defs, &rel.target) {
                    assert(declared_fields(defs@[i as int])[a as int].relation is Some);
                    return false;
                }
            }
            a = a + 1;
        }
        i = i + 1;
    }
    true
}

fn check_pair(d1: &EntityDef, d2: &EntityDef) -> (r: bool)
    requires
        d1.body is Named,
        d2.body is Named,
    ensures
        r == entities_clash(*d1, *d2),
{
    let f1 = fields_of(d1);
    let f2 = fields_of(d2);
    let mut a: usize = 0;
    while a < f1.len()
        invariant
            f1@ == declared_fields(*d1),
            f2@ == declared_fields(*d2),
            a <= f1@.len(),
            forall|x: int, y: int|
                0 <= x < a && 0 <= y < f2@.len() ==> !#[trigger] reverse_clash(d1.name@, f1@[x], d2.name@, #[trigger] f2@[y]),
        decreases f1.len() - a,
    {
        if let Some(r1) = &f1[a].relation {
            let n1 = reverse_accessor(d1.name.as_str(), r1);
            let mut b: usize = 0;
            while b < f2.len()
                invariant
                    f1@ == declared_fields(*d1),
                    f2@ == declared_fields(*d2),
                    a < f1@.len(),
                    f1@[a as int].relation == Some(*r1),
                    n1@ == reverse_name(d1.name@, *r1),
                    b <= f2@.len(),
                    forall|x: int, y: int|
                        0 <= x < a && 0 <= y < f2@.len() ==> !#[trigger] reverse_clash(d1.name@, f1@[x], d2.name@, #[trigger] f2@[y]),
                    forall|y: int| 0 <= y < b ==> !reverse_clash(d1.name@, f1@[a as int], d2.name@, #[trigger] f2@[y]),
                decreases f2.len() - b,
            {
                if let Some(r2) = &f2[b].relation {
                    if r1.target == r2.target {
                        let n2 = reverse_accessor(d2.name.as_str(), r2);
                        if n1 == n2 {
                            assert(reverse_clash(d1.name@, f1@[a as int], d2.name@, f2@[b as int]));
                            return true;
                        }
                    }
                }
                b = b + 1;
            }
        }
        a = a + 1;
    }
    false
}

fn check_reverse_unique(defs: &Vec<EntityDef>) -> (r: bool)
    requires
        forall|i: int| 0 <= i < defs@.len() ==> (#[trigger] defs@[i]).body is Named,
    ensures
        r == reverse_unique(defs@),
{
    let n = defs.len();
    let mut i: usize = 0;
    while i < n
        invariant
            n == defs@.len(),
            i <= n,
            forall|k: int| 0 <= k < n ==> (#[trigger] defs@[k]).body is Named,
            forall|a: int, b: int| 0 <= a < b < n && a < i ==> !entities_clash(#[trigger] defs@[a], #[trigger] defs@[b]),
        decreases n - i,
    {
        let mut j: usize = i + 1;
        while j < n
            invariant
                n == defs@.len(),
                i < n,
                i + 1 <= j <= n,
                forall|k: int| 0 <= k < n ==> (#[trigger] defs@[k]).body is Named,
                forall|a: int, b: int| 0 <= a < b < n && a < i ==> !entities_clash(#[trigger] defs@[a], #[trigger] defs@[b]),
                forall|b: int| i < b < j ==> !entities_clash(defs@[i as int], #[trigger] defs@[b]),
            decreases n - j,
        {
            if check_pair(&defs[i], &defs[j]) {
                return false;
            }
            j = j + 1;
        }
        i = i + 1;
    }
    true
}

/// Compiles all definitions together. Fails with the first fault of
/// `registry_fault`; otherwise each descriptor is what its definition
/// compiles to, in the same order.
pub fn build_registry(defs: Vec<EntityDef>) -> (r: Result<Vec<EntityDescriptor>, StructuralError>)
    ensures
        match registry_fault(defs@) {
            Some(e) => r == Err::<Vec<EntityDescriptor>, StructuralError>(e),
            None => r matches Ok(ds) && ds@.len() == defs@.len() && forall|i: int|
                0 <= i < ds@.len() ==> compiled_from(#[trigger] ds@[i], defs@[i]),
        },
{
    if let Some(e) = check_each(&defs) {
        return Err(e);
    }
    assert forall|i: int| 0 <= i < defs@.len() implies (#[trigger] defs@[i]).body is Named by {
        assert(structural_fault(defs@[i]) is None);
    }
    if !check_names(&defs) {
        return Err(StructuralError::DuplicateEntity);
    }
    if !check_targets_declared(&defs) {
        return Err(StructuralError::MissingRelationTarget);
    }
    if !check_reverse_unique(&defs) {
        return Err(StructuralError::AmbiguousRelation);
    }
    let ghost orig = defs@;
    let n = defs.len();
    let mut rest = defs;
    let mut ds: Vec<EntityDescriptor> = Vec::new();
    let mut i: usize = 0;
    while i < n
        invariant
            n == orig.len(),
            i <= n,
            rest@ == orig.skip(i as int),
            ds@.len() == i,
            forall|k: int| 0 <= k < orig.len() ==> structural_fault(#[trigger] orig[k]) is None,
            forall|k: int| 0 <= k < i ==> compiled_from(#[trigger] ds@[k], orig[k]),
        decreases n - i,
    {
        let def = rest.remove(0);
        assert(def == orig[i as int]);
        match build_descriptor(def) {
            Ok(d) => ds.push(d),
            Err(e) => return Err(e),
        }
        i = i + 1;
        assert(rest@ =~= orig.skip(i as int));
    }
    Ok(ds)
}

} // verus!
