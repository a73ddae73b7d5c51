//! Entity definitions as declared, and the descriptors built from them.
use vstd::prelude::*;
use crate::text::{lower_of, lowercase};

verus! {

/// The scalar type of a column.
#[derive(Clone, Copy, Debug, PartialEq, Eq, Structural)]
pub enum ScalarType {
    Int,
    Bool,
    Text,
    Bytes,
    Timestamp,
}

/// The guard a generated handler enforces.
#[derive(Clone, Copy, Debug, PartialEq, Eq, Structural)]
pub enum PolicyTag {
    CreateAsOwner,
    Read,
    ReadIfOwner,
    ReadIfVisible,
    UpdateIfOwner,
    DeleteIfOwner,
}

/// Why an entity definition cannot be compiled.
#[derive(Clone, Copy, Debug, PartialEq, Eq, Structural)]
pub enum StructuralError {
    /// The definition has no list of named fields.
    NotNamedFields,
    /// Two fields share a name, or a declared field is named like the key.
    DuplicateField,
    /// Two relations of one entity would get the same accessor name.
    AmbiguousRelation,
    /// A relation names no target entity, or one that is not declared.
    MissingRelationTarget,
    /// A foreign-key field whose name does not end in `_id`.
    MalformedForeignKey,
    /// An owner or visibility marker on a field of the wrong shape, or twice.
    MisplacedRole,
    /// A policy needs an owner or visibility field that the entity lacks.
    MissingPolicyField,
    /// Two policies would serve the same route.
    ConflictingPolicies,
    /// Two entities share a name.
    DuplicateEntity,
}

/// A foreign-key annotation: the entity referred to, and an optional name
/// for the collection accessor generated on that entity.
#[derive(Clone, Debug)]
pub struct RelationDef {
    pub target: String,
    pub alias: Option<String>,
}

/// One declared field.
#[derive(Clone, Debug)]
pub struct FieldDef {
    pub name: String,
    pub ty: ScalarType,
    pub nullable: bool,
    pub relation: Option<RelationDef>,
    /// Holds the id of the principal that owns the row.
    pub owner: bool,
    /// An optional boolean: `true` makes the row private to its owner.
    pub visibility: bool,
}

/// The shape of a declared entity.
#[derive(Clone, Debug)]
pub enum EntityBody {
    Named(Vec<FieldDef>),
    Unnamed(usize),
    Unit,
}

/// An entity as declared: its name, an optional explicit table, its fields
/// and the handler policies it enables.
#[derive(Clone, Debug)]
pub struct EntityDef {
    pub name: String,
    pub table: Option<String>,
    pub body: EntityBody,
    pub policies: Vec<PolicyTag>,
}

/// A compiled entity. `fields[0]` is the implicit primary key `id`; the
/// declared fields follow in their order. `owner` and `visibility` give the
/// positions of the marked fields in `fields`.
#[derive(Clone, Debug)]
pub struct EntityDescriptor {
    pub name: String,
    pub table: String,
    pub fields: Vec<FieldDef>,
    pub owner: Option<usize>,
    pub visibility: Option<usize>,
    pub policies: Vec<PolicyTag>,
}

/// The name of the primary-key column.
pub const KEY_COLUMN: &'static str = "id";

pub open spec fn is_key_field(f: FieldDef) -> bool {
    &&& f.name@ == KEY_COLUMN@
    &&& f.ty == ScalarType::Int
    &&& f.nullable
    &&& f.relation is None
    &&& !f.owner
    &&& !f.visibility
}

/// Length of the text before the first `_` at or after `i`.
pub open spec fn token_end(s: Seq<char>, i: int) -> int
    decreases s.len() - i,
{
    if i < 0 || i >= s.len() || s[i] == '_' {
        i
    } else {
        token_end(s, i + 1)
    }
}

/// The text before the first `_`.
pub open spec fn first_token(s: Seq<char>) -> Seq<char> {
    s.take(token_end(s, 0))
}

pub open spec fn ends_with_id(s: Seq<char>) -> bool {
    &&& s.len() >= 3
    &&& s[s.len() - 3] == '_'
    &&& s[s.len() - 2] == 'i'
    &&& s[s.len() - 1] == 'd'
}

/// The name of the accessor that fetches the related row: `get_<token>`.
pub open spec fn forward_name(field: Seq<char>) -> Seq<char> {
    "get_"@ + first_token(field)
}

/// The name of the accessor, generated on the target entity, that collects
/// the rows of `entity` referring to it: `find_<alias or lower(entity)>`.
pub open spec fn reverse_name(entity: Seq<char>, rel: RelationDef) -> Seq<char> {
    "find_"@ + match rel.alias {
        Some(a) => a@,
        None => lower_of(entity),
    }
}

pub open spec fn derived_table(name: Seq<char>) -> Seq<char> {
    lower_of(name) + "s"@
}

pub open spec fn targets_named(fields: Seq<FieldDef>) -> bool {
    forall|i: int| #![trigger fields[i]]
        0 <= i < fields.len() && fields[i].relation is Some ==> fields[i].relation->0.target@.len() > 0
}

/// Every foreign key is a non-null integer field whose name ends in `_id`.
pub open spec fn keys_well_named(fields: Seq<FieldDef>) -> bool {
    forall|i: int| #![trigger fields[i]]
        0 <= i < fields.len() && fields[i].relation is Some ==> ends_with_id(fields[i].name@)
            && fields[i].ty == ScalarType::Int && !fields[i].nullable
}

/// No two fields share a name.
pub open spec fn names_distinct(fields: Seq<FieldDef>) -> bool {
    forall|i: int, j: int|
        0 <= i < j < fields.len() ==> #[trigger] fields[i].name@ != #[trigger] fields[j].name@
}

/// The declared fields have distinct names, none of them the key's.
pub open spec fn declared_names_ok(fields: Seq<FieldDef>) -> bool {
    &&& names_distinct(fields)
    &&& forall|i: int| 0 <= i < fields.len() ==> #[trigger] fields[i].name@ != KEY_COLUMN@
}

/// Two foreign-key fields whose accessors clash.
pub open spec fn clash(entity: Seq<char>, f: FieldDef, g: FieldDef) -> bool {
    &&& f.relation is Some
    &&& g.relation is Some
    &&& (forward_name(f.name@) == forward_name(g.name@) || (f.relation->0.target@
        == g.relation->0.target@ && reverse_name(entity, f.relation->0) == reverse_name(
        entity,
        g.relation->0,
    )))
}

pub open spec fn unambiguous(entity: Seq<char>, fields: Seq<FieldDef>) -> bool {
    forall|i: int, j: int|
        0 <= i < j < fields.len() ==> !#[trigger] clash(entity, fields[i], fields[j])
}

pub open spec fn owner_shape(f: FieldDef) -> bool {
    f.owner ==> f.ty == ScalarType::Int && !f.nullable
}

pub open spec fn visibility_shape(f: FieldDef) -> bool {
    f.visibility ==> f.ty == ScalarType::Bool && f.nullable
}

pub open spec fn roles_placed(fields: Seq<FieldDef>) -> bool {
    &&& forall|i: int| #![trigger fields[i]]
        0 <= i < fields.len() ==> owner_shape(fields[i]) && visibility_shape(fields[i])
    &&& forall|i: int, j: int|
        0 <= i < j < fields.len() ==> !(#[trigger] fields[i].owner && #[trigger] fields[j].owner)
    &&& forall|i: int, j: int|
        0 <= i < j < fields.len() ==> !(#[trigger] fields[i].visibility
            && #[trigger] fields[j].visibility)
}

pub open spec fn has_owner(fields: Seq<FieldDef>) -> bool {
    exists|i: int| 0 <= i < fields.len() && #[trigger] fields[i].owner
}

pub open spec fn has_visibility(fields: Seq<FieldDef>) -> bool {
    exists|i: int| 0 <= i < fields.len() && #[trigger] fields[i].visibility
}

pub open spec fn needs_owner(p: PolicyTag) -> bool {
    p != PolicyTag::Read
}

pub open spec fn needs_visibility(p: PolicyTag) -> bool {
    p == PolicyTag::ReadIfVisible
}

pub open spec fn policies_supported(fields: Seq<FieldDef>, policies: Seq<PolicyTag>) -> bool {
    forall|i: int| #![trigger policies[i]]
        0 <= i < policies.len() ==> (needs_owner(policies[i]) ==> has_owner(fields)) && (
        needs_visibility(policies[i]) ==> has_visibility(fields))
}

/// The route a policy's handler is served on: create, read, update, delete.
pub open spec fn route_slot(p: PolicyTag) -> int {
    match p {
        PolicyTag::CreateAsOwner => 0,
        PolicyTag::Read | PolicyTag::ReadIfOwner | PolicyTag::ReadIfVisible => 1,
        PolicyTag::UpdateIfOwner => 2,
        PolicyTag::DeleteIfOwner => 3,
    }
}

pub open spec fn policies_distinct(policies: Seq<PolicyTag>) -> bool {
    forall|i: int, j: int|
        0 <= i < j < policies.len() ==> route_slot(#[trigger] policies[i]) != route_slot(
            #[trigger] policies[j],
        )
}

/// The first structural fault of a definition, checked in a fixed order.
pub open spec fn structural_fault(def: EntityDef) -> Option<StructuralError> {
    match def.body {
        EntityBody::Named(fields) => {
            let fs = fields@;
            if !declared_names_ok(fs) {
                Some(StructuralError::DuplicateField)
            } else if !targets_named(fs) {
                Some(StructuralError::MissingRelationTarget)
            } else if !keys_well_named(fs) {
                Some(StructuralError::MalformedForeignKey)
            } else if !unambiguous(def.name@, fs) {
                Some(StructuralError::AmbiguousRelation)
            } else if !roles_placed(fs) {
                Some(StructuralError::MisplacedRole)
            } else if !policies_supported(fs, def.policies@) {
                Some(StructuralError::MissingPolicyField)
            } else if !policies_distinct(def.policies@) {
                Some(StructuralError::ConflictingPolicies)
            } else {
                None
            }
        },
        _ => Some(StructuralError::NotNamedFields),
    }
}

/// Position in `fields` of the field with the owner marker (when `owner`)
/// or the visibility marker (otherwise), if there is one.
pub open spec fn marked_position(fields: Seq<FieldDef>, owner: bool) -> Option<usize> {
    if owner {
        if has_owner(fields) {
            Some(choose|i: usize| i < fields.len() && #[trigger] fields[i as int].owner)
        } else {
            None
        }
    } else {
        if has_visibility(fields) {
            Some(choose|i: usize| i < fields.len() && #[trigger] fields[i as int].visibility)
        } else {
            None
        }
    }
}

impl EntityDescriptor {
    /// The invariant every built descriptor keeps.
    pub open spec fn wf(&self) -> bool {
        let fs = self.fields@;
        &&& fs.len() >= 1
        &&& is_key_field(fs[0])
        &&& names_distinct(fs)
        &&& roles_placed(fs)
        &&& self.owner matches Some(o) ==> 1 <= o < fs.len() && fs[o as int].owner
        &&& self.owner is None ==> !has_owner(fs)
        &&& self.visibility matches Some(v) ==> 1 <= v < fs.len() && fs[v as int].visibility
        &&& self.visibility is None ==> !has_visibility(fs)
        &&& policies_supported(fs, self.policies@)
        &&& policies_distinct(self.policies@)
    }
}

/// The content of a field definition: name, type, nullability, relation
/// target and alias, owner marker, visibility marker.
pub type FieldView = (Seq<char>, ScalarType, bool, Option<(Seq<char>, Option<Seq<char>>)>, bool, bool);

pub open spec fn field_view(f: FieldDef) -> FieldView {
    (
        f.name@,
        f.ty,
        f.nullable,
        match f.relation {
            Some(rel) => Some(
                (
                    rel.target@,
                    match rel.alias {
                        Some(a) => Some(a@),
                        None => None,
                    },
                ),
            ),
            None => None,
        },
        f.owner,
        f.visibility,
    )
}

/// A field with no relation and no marker.
pub open spec fn plain_field(name: Seq<char>, ty: ScalarType, nullable: bool) -> FieldView {
    (name, ty, nullable, None, false, false)
}

/// A non-null integer foreign key, possibly marked as the owner.
pub open spec fn foreign_field(
    name: Seq<char>,
    target: Seq<char>,
    alias: Option<Seq<char>>,
    owner: bool,
) -> FieldView {
    (name, ScalarType::Int, false, Some((target, alias)), owner, false)
}

/// An optional boolean visibility flag.
pub open spec fn flag_field(name: Seq<char>) -> FieldView {
    (name, ScalarType::Bool, true, None, false, true)
}

impl FieldDef {
    /// A field with no relation and no marker.
    pub fn plain(name: &str, ty: ScalarType, nullable: bool) -> (r: FieldDef)
        ensures
            field_view(r) == plain_field(name@, ty, nullable),
    {
        FieldDef {
            name: String::from_str(name),
            ty,
            nullable,
            relation: None,
            owner: false,
            visibility: false,
        }
    }

    /// A non-null integer foreign key to `target`, with an optional alias
    /// for the collection accessor on `target`.
    pub fn foreign(name: &str, target: &str, alias: Option<&str>) -> (r: FieldDef)
        ensures
            field_view(r) == foreign_field(
                name@,
                target@,
                match alias {
                    Some(a) => Some(a@),
                    None => None,
                },
                false,
            ),
    {
        let alias = match alias {
            Some(a) => Some(String::from_str(a)),
            None => None,
        };
        FieldDef {
            name: String::from_str(name),
            ty: ScalarType::Int,
            nullable: false,
            relation: Some(RelationDef { target: String::from_str(target), alias }),
            owner: false,
            visibility: false,
        }
    }

    /// An optional boolean that makes a row private to its owner when `true`.
    pub fn visibility_flag(name: &str) -> (r: FieldDef)
        ensures
            field_view(r) == flag_field(name@),
    {
        FieldDef {
            name: String::from_str(name),
            ty: ScalarType::Bool,
            nullable: true,
            relation: None,
            owner: false,
            visibility: true,
        }
    }

    /// The same field, marked as holding the owning principal's id.
    pub fn owned(self) -> (r: FieldDef)
        ensures
            field_view(r) == (
                field_view(self).0,
                field_view(self).1,
                field_view(self).2,
                field_view(self).3,
                true,
                field_view(self).5,
            ),
    {
        FieldDef { owner: true, ..self }
    }
}

/// The primary-key field that every descriptor starts with.
pub fn key_field() -> (r: FieldDef)
    ensures
        is_key_field(r),
{
    FieldDef {
        name: String::from_str(KEY_COLUMN),
        ty: ScalarType::Int,
        nullable: true,
        relation: None,
        owner: false,
        visibility: false,
    }
}

fn ends_with_id_exec(s: &str) -> (r: bool)
    ensures
        r == ends_with_id(s@),
{
    let n = s.unicode_len();
    if n < 3 {
        return false;
    }
    s.get_char(n - 3) == '_' && s.get_char(n - 2) == 'i' && s.get_char(n - 1) == 'd'
}

/// The name of the accessor that fetches the row a foreign key refers to.
pub fn forward_accessor(field: &str) -> (r: String)
    ensures
        r@ == forward_name(field@),
{
    let n = field.unicode_len();
    let mut i: usize = 0;
    while i < n && field.get_char(i) != '_'
        invariant
            n == field@.len(),
            i <= n,
            token_end(field@, i as int) == token_end(field@, 0),
        decreases n - i,
    {
        i = i + 1;
    }
    assert(token_end(field@, i as int) == i as int);
    assert(first_token(field@) =~= field@.subrange(0, i as int));
    let mut r = String::from_str("get_");
    r.append(field.substring_char(0, i));
    r
}

/// The name of the collection accessor generated on a relation's target.
pub fn reverse_accessor(entity: &str, rel: &RelationDef) -> (r: String)
    ensures
        r@ == reverse_name(entity@, *rel),
{
    let mut r = String::from_str("find_");
    match &rel.alias {
        Some(a) => r.append(a.as_str()),
        None => {
            let l = lowercase(entity);
            r.append(l.as_str());
        },
    }
    r
}

fn check_targets(fields: &Vec<FieldDef>) -> (r: bool)
    ensures
        r == targets_named(fields@),
{
    let mut i: usize = 0;
    while i < fields.len()
        invariant
            i <= fields.len(),
            forall|k: int| #![trigger fields@[k]]
                0 <= k < i && fields@[k].relation is Some ==> fields@[k].relation->0.target@.len()
                    > 0,
        decreases fields.len() - i,
    {
        if let Some(rel) = &fields[i].relation {
            if rel.target.as_str().unicode_len() == 0 {
                assert(!targets_named(fields@)) by {
                    assert(fields@[i as int].relation is Some);
                }
                return false;
            }
        }
        i = i + 1;
    }
    true
}

fn check_field_names(fields: &Vec<FieldDef>) -> (r: bool)
    ensures
        r == declared_names_ok(fields@),
{
    let key = String::from_str(KEY_COLUMN);
    let n = fields.len();
    let mut i: usize = 0;
    while i < n
        invariant
            n == fields@.len(),
            i <= n,
            key@ == KEY_COLUMN@,
            forall|a: int| 0 <= a < i ==> #[trigger] fields@[a].name@ != KEY_COLUMN@,
            forall|a: int, b: int|
                0 <= a < b < n && a < i ==> #[trigger] fields@[a].name@ != #[trigger] fields@[b].name@,
        decreases n - i,
    {
        if fields[i].name == key {
            return false;
        }
        let mut j: usize = i + 1;
        while j < n
            invariant
                n == fields@.len(),
                i < n,
                i + 1 <= j <= n,
                forall|a: int, b: int|
                    0 <= a < b < n && a < i ==> #[trigger] fields@[a].name@ != #[trigger] fields@[b].name@,
                forall|b: int| i < b < j ==> fields@[i as int].name@ != #[trigger] fields@[b].name@,
            decreases n - j,
        {
            if fields[i].name == fields[j].name {
                return false;
            }
            j = j + 1;
        }
        i = i + 1;
    }
    true
}

fn check_key_names(fields: &Vec<FieldDef>) -> (r: bool)
    ensures
        r == keys_well_named(fields@),
{
    let mut i: usize = 0;
    while i < fields.len()
        invariant
            i <= fields.len(),
            forall|k: int| #![trigger fields@[k]]
                0 <= k < i && fields@[k].relation is Some ==> ends_with_id(fields@[k].name@)
                    && fields@[k].ty == ScalarType::Int && !fields@[k].nullable,
        decreases fields.len() - i,
    {
        let f = &fields[i];
        if f.relation.is_some() && (!ends_with_id_exec(f.name.as_str()) || f.ty != ScalarType::Int
            || f.nullable) {
            assert(!keys_well_named(fields@)) by {
                assert(fields@[i as int].relation is Some);
            }
            return false;
        }
        i = i + 1;
    }
    true
}

fn clashes(entity: &str, f: &FieldDef, g: &FieldDef) -> (r: bool)
    ensures
        r == clash(entity@, *f, *g),
{
    match (&f.relation, &g.relation) {
        (Some(rf), Some(rg)) => {
            let ff = forward_accessor(f.name.as_str());
            let fg = forward_accessor(g.name.as_str());
            if ff == fg {
                return true;
            }
            if rf.target == rg.target {
                let bf = reverse_accessor(entity, rf);
                let bg = reverse_accessor(entity, rg);
                bf == bg
            } else {
                false
            }
        },
        _ => false,
    }
}

fn check_unambiguous(entity: &str, fields: &Vec<FieldDef>) -> (r: bool)
    ensures
        r == unambiguous(entity@, fields@),
{
    let n = fields.len();
    let mut i: usize = 0;
    while i < n
        invariant
            n == fields.len(),
            i <= n,
            forall|a: int, b: int|
                0 <= a < b < n && a < i ==> !#[trigger] clash(entity@, fields@[a], fields@[b]),
        decreases n - i,
    {
        let mut j: usize = i + 1;
        while j < n
            invariant
                n == fields.len(),
                i < n,
                i + 1 <= j <= n,
                forall|a: int, b: int|
                    0 <= a < b < n && a < i ==> !#[trigger] clash(entity@, fields@[a], fields@[b]),
                forall|b: int| i < b < j ==> !#[trigger] clash(entity@, fields@[i as int], fields@[b]),
            decreases n - j,
        {
            if clashes(entity, &fields[i], &fields[j]) {
                return false;
            }
            j = j + 1;
        }
        i = i + 1;
    }
    true
}

fn check_roles(fields: &Vec<FieldDef>) -> (r: bool)
    ensures
        r == roles_placed(fields@),
{
    let n = fields.len();
    let mut seen_owner = false;
    let mut seen_vis = false;
    let mut i: usize = 0;
    while i < n
        invariant
            n == fields.len(),
            i <= n,
            forall|k: int| #![trigger fields@[k]]
                0 <= k < i ==> owner_shape(fields@[k]) && visibility_shape(fields@[k]),
            forall|a: int, b: int|
                0 <= a < b < i ==> !(#[trigger] fields@[a].owner && #[trigger] fields@[b].owner),
            forall|a: int, b: int|
                0 <= a < b < i ==> !(#[trigger] fields@[a].visibility
                    && #[trigger] fields@[b].visibility),
            seen_owner == exists|k: int| 0 <= k < i && #[trigger] fields@[k].owner,
            seen_vis == exists|k: int| 0 <= k < i && #[trigger] fields@[k].visibility,
        decreases n - i,
    {
        let f = &fields[i];
        if f.owner {
            if seen_owner || f.ty != ScalarType::Int || f.nullable {
                assert(!roles_placed(fields@)) by {
                    if seen_owner {
                        let k = choose|k: int| 0 <= k < i && #[trigger] fields@[k].owner;
                        assert(fields@[k].owner && fields@[i as int].owner);
                    } else {
                        assert(!owner_shape(fields@[i as int]));
                    }
                }
                return false;
            }
            seen_owner = true;
        }
        if f.visibility {
            if seen_vis || f.ty != ScalarType::Bool || !f.nullable {
                assert(!roles_placed(fields@)) by {
                    if seen_vis {
                        let k = choose|k: int| 0 <= k < i && #[trigger] fields@[k].visibility;
                        assert(fields@[k].visibility && fields@[i as int].visibility);
                    } else {
                        assert(!visibility_shape(fields@[i as int]));
                    }
                }
                return false;
            }
            seen_vis = true;
        }
        i = i + 1;
    }
    true
}

/// Position of the first field with the owner (or visibility) marker.
fn find_marked(fields: &Vec<FieldDef>, owner: bool) -> (r: Option<usize>)
    ensures
        match r {
            Some(k) => k < fields.len() && (if owner {
                fields@[k as int].owner
            } else {
                fields@[k as int].visibility
            }),
            None => if owner {
                !has_owner(fields@)
            } else {
                !has_visibility(fields@)
            },
        },
{
    let mut i: usize = 0;
    while i < fields.len()
        invariant
            i <= fields.len(),
            forall|k: int| #![trigger fields@[k]]
                0 <= k < i ==> !(if owner {
                    fields@[k].owner
                } else {
                    fields@[k].visibility
                }),
        decreases fields.len() - i,
    {
        let hit = if owner {
            fields[i].owner
        } else {
            fields[i].visibility
        };
        if hit {
            return Some(i);
        }
        i = i + 1;
    }
    None
}

fn check_policies_supported(fields: &Vec<FieldDef>, policies: &Vec<PolicyTag>) -> (r: bool)
    ensures
        r == policies_supported(fields@, policies@),
{
    let has_o = find_marked(fields, true).is_some();
    let has_v = find_marked(fields, false).is_some();
    let mut i: usize = 0;
    while i < policies.len()
        invariant
            i <= policies.len(),
            has_o == has_owner(fields@),
            has_v == has_visibility(fields@),
            forall|k: int| #![trigger policies@[k]]
                0 <= k < i ==> (needs_owner(policies@[k]) ==> has_owner(fields@)) && (
                needs_visibility(policies@[k]) ==> has_visibility(fields@)),
        decreases policies.len() - i,
    {
        let p = policies[i];
        if (p != PolicyTag::Read && !has_o) || (p == PolicyTag::ReadIfVisible && !has_v) {
            assert(!policies_supported(fields@, policies@)) by {
                assert(policies@[i as int] == p);
            }
            return false;
        }
        i = i + 1;
    }
    true
}

fn slot(p: PolicyTag) -> (r: u8)
    ensures
        r as int == route_slot(p),
{
    match p {
        PolicyTag::CreateAsOwner => 0,
        PolicyTag::Read | PolicyTag::ReadIfOwner | PolicyTag::ReadIfVisible => 1,
        PolicyTag::UpdateIfOwner => 2,
        PolicyTag::DeleteIfOwner => 3,
    }
}

fn check_policies_distinct(policies: &Vec<PolicyTag>) -> (r: bool)
    ensures
        r == policies_distinct(policies@),
{
    let n = policies.len();
    let mut i: usize = 0;
    while i < n
        invariant
            n == policies.len(),
            i <= n,
            forall|a: int, b: int|
                0 <= a < b < n && a < i ==> route_slot(#[trigger] policies@[a]) != route_slot(
                    #[trigger] policies@[b],
                ),
        decreases n - i,
    {
        let mut j: usize = i + 1;
        while j < n
            invariant
                n == policies.len(),
                i < n,
                i + 1 <= j <= n,
                forall|a: int, b: int|
                    0 <= a < b < n && a < i ==> route_slot(#[trigger] policies@[a]) != route_slot(
                        #[trigger] policies@[b],
                    ),
                forall|b: int|
                    i < b < j ==> route_slot(policies@[i as int]) != route_slot(
                        #[trigger] policies@[b],
                    ),
            decreases n - j,
        {
            if slot(policies[i]) == slot(policies[j]) {
                return false;
            }
            j = j + 1;
        }
        i = i + 1;
    }
    true
}

/// The descriptor `d` is what `def` compiles to.
pub open spec fn compiled_from(d: EntityDescriptor, def: EntityDef) -> bool {
    &&& d.wf()
    &&& d.name == def.name
    &&& d.table@ == match def.table {
        Some(t) => t@,
        None => derived_table(def.name@),
    }
    &&& def.body matches EntityBody::Named(fs) && d.fields@ == seq![d.fields@[0]] + fs@
    &&& d.owner == marked_position(d.fields@, true)
    &&& d.visibility == marked_position(d.fields@, false)
    &&& d.policies == def.policies
}

/// The first structural fault of a definition, if it has one.
pub fn check_definition(def: &EntityDef) -> (r: Option<StructuralError>)
    ensures
        r == structural_fault(*def),
{
    let fields = match &def.body {
        EntityBody::Named(fields) => fields,
        _ => return Some(StructuralError::NotNamedFields),
    };
    if !check_field_names(fields) {
        return Some(StructuralError::DuplicateField);
    }
    if !check_targets(fields) {
        return Some(StructuralError::MissingRelationTarget);
    }
    if !check_key_names(fields) {
        return Some(StructuralError::MalformedForeignKey);
    }
    if !check_unambiguous(def.name.as_str(), fields) {
        return Some(StructuralError::AmbiguousRelation);
    }
    if !check_roles(fields) {
        return Some(StructuralError::MisplacedRole);
    }
    if !check_policies_supported(fields, &def.policies) {
        return Some(StructuralError::MissingPolicyField);
    }
    if !check_policies_distinct(&def.policies) {
        return Some(StructuralError::ConflictingPolicies);
    }
    None
}

/// Compiles one entity definition: checks it, prepends the primary key and
/// derives the table name when none is given.
pub fn build_descriptor(def: EntityDef) -> (r: Result<EntityDescriptor, StructuralError>)
    ensures
        match structural_fault(def) {
            Some(e) => r == Err::<EntityDescriptor, StructuralError>(e),
            None => r matches Ok(d) && compiled_from(d, def),
        },
{
    if let Some(e) = check_definition(&def) {
        return Err(e);
    }
    let EntityDef { name, table, body, policies } = def;
    let mut fields = match body {
        EntityBody::Named(fields) => fields,
        _ => return Err(StructuralError::NotNamedFields),
    };
    let table = match table {
        Some(t) => t,
        None => {
            let mut t = lowercase(name.as_str());
            t.append("s");
            t
        },
    };
    let ghost declared = fields@;
    fields.insert(0, key_field());
    let owner = find_marked(&fields, true);
    let visibility = find_marked(&fields, false);
    proof {
        let fs = fields@;
        assert(fs.drop_first() =~= declared);
        assert forall|i: int, j: int|
            0 <= i < j < fs.len() implies !(#[trigger] fs[i].owner && #[trigger] fs[j].owner) by {
            if i > 0 {
                assert(fs[i] == declared[i - 1] && fs[j] == declared[j - 1]);
            }
        }
        assert forall|i: int, j: int|
            0 <= i < j < fs.len() implies !(#[trigger] fs[i].visibility
                && #[trigger] fs[j].visibility) by {
            if i > 0 {
                assert(fs[i] == declared[i - 1] && fs[j] == declared[j - 1]);
            }
        }
        assert forall|i: int| #![trigger fs[i]]
            0 <= i < fs.len() implies owner_shape(fs[i]) && visibility_shape(fs[i]) by {
            if i > 0 {
                assert(fs[i] == declared[i - 1]);
            }
        }
        assert(has_owner(fs) == has_owner(declared)) by {
            if has_owner(fs) {
                let k = choose|k: int| 0 <= k < fs.len() && #[trigger] fs[k].owner;
                assert(declared[k - 1].owner);
            }
            if has_owner(declared) {
                let k = choose|k: int| 0 <= k < declared.len() && #[trigger] declared[k].owner;
                assert(fs[k + 1].owner);
            }
        }
        assert(has_visibility(fs) == has_visibility(declared)) by {
            if has_visibility(fs) {
                let k = choose|k: int| 0 <= k < fs.len() && #[trigger] fs[k].visibility;
                assert(declared[k - 1].visibility);
            }
            if has_visibility(declared) {
                let k = choose|k: int|
                    0 <= k < declared.len() && #[trigger] declared[k].visibility;
                assert(fs[k + 1].visibility);
            }
        }
        assert(seq![fs[0]] + declared =~= fs);
        assert forall|i: int, j: int|
            0 <= i < j < fs.len() implies #[trigger] fs[i].name@ != #[trigger] fs[j].name@ by {
            assert(fs[j] == declared[j - 1]);
            if i > 0 {
                assert(fs[i] == declared[i - 1]);
            } else {
                assert(declared[j - 1].name@ != KEY_COLUMN@);
            }
        }
        if let Some(k) = owner {
            let c = choose|i: usize| i < fs.len() && #[trigger] fs[i as int].owner;
            assert(c == k) by {
                if c < k {
                    assert(fs[c as int].owner && fs[k as int].owner);
                } else if k < c {
                    assert(fs[k as int].owner && fs[c as int].owner);
                }
            }
        }
        if let Some(k) = visibility {
            let c = choose|i: usize| i < fs.len() && #[trigger] fs[i as int].visibility;
            assert(c == k) by {
                if c < k {
                    assert(fs[c as int].visibility && fs[k as int].visibility);
                } else if k < c {
                    assert(fs[k as int].visibility && fs[c as int].visibility);
                }
            }
        }
    }
    Ok(EntityDescriptor { name, table, fields, owner, visibility, policies })
}

} // verus!
