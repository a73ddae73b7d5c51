//! Ownership and visibility guards of the generated handlers. Each guard
//! takes what the storage lookup returned and the caller, and decides what
//! is returned or which statement is run. Every guard fails closed: a
//! missing row, principal, id or owner column means refusal.
use vstd::prelude::*;
use crate::auth::{principal_of, AuthenticatedUser, User};
use crate::row::{int_at, key_of, Cell, Row, Value};
use crate::schema::EntityDescriptor;
use crate::sql::{
    self, args_of, delete_owned_text, insert_params, insert_text, update_owned_text, update_params,
    Query,
};

verus! {

/// The owner column of `row` holds the id of principal `who`.
pub open spec fn owned_by(d: EntityDescriptor, row: Seq<Cell>, who: Option<i32>) -> bool {
    &&& d.owner is Some
    &&& who is Some
    &&& int_at(row, d.owner->0 as int) == who
}

/// `row` may be shown to `who`: when its visibility flag is unset or false,
/// to anyone; when it is true, to the owner only.
pub open spec fn visible_to(d: EntityDescriptor, row: Seq<Cell>, who: Option<i32>) -> bool {
    match d.visibility {
        Some(v) => v < row.len() && match row[v as int] {
            Cell::Null => true,
            Cell::Bool(b) => !b || owned_by(d, row, who),
            _ => false,
        },
        None => false,
    }
}

/// The submitted row has the entity's shape and a key, and the stored row
/// with that key is owned by `who`.
pub open spec fn may_update(
    d: EntityDescriptor,
    payload: Seq<Cell>,
    existing: Option<Row>,
    who: Option<i32>,
) -> bool {
    &&& payload.len() == d.fields@.len()
    &&& key_of(payload) is Some
    &&& existing matches Some(e)
    &&& key_of(e@) == key_of(payload)
    &&& owned_by(d, e@, who)
}

/// The stored row with key `id` is owned by `who`.
pub open spec fn may_delete(d: EntityDescriptor, id: i32, existing: Option<Row>, who: Option<i32>) -> bool {
    &&& existing matches Some(e)
    &&& key_of(e@) == Some(id)
    &&& owned_by(d, e@, who)
}

fn is_owned(d: &EntityDescriptor, row: &Row, who: Option<i32>) -> (r: bool)
    ensures
        r == owned_by(*d, row@, who),
{
    match (d.owner, who) {
        (Some(o), Some(p)) => match row.int_at(o) {
            Some(x) => x == p,
            None => false,
        },
        _ => false,
    }
}

fn is_visible(d: &EntityDescriptor, row: &Row, who: Option<i32>) -> (r: bool)
    ensures
        r == visible_to(*d, row@, who),
{
    match d.visibility {
        Some(v) => {
            if v >= row.values.len() {
                return false;
            }
            match &row.values[v] {
                Value::Null => true,
                Value::Bool(b) => !*b || is_owned(d, row, who),
                _ => false,
            }
        },
        None => false,
    }
}

/// Why a guard refused. Callers may answer all of them alike, so as not to
/// tell a forbidden row from a missing one; the guard keeps them apart.
#[derive(Clone, Copy, Debug, PartialEq, Eq, Structural)]
pub enum Refusal {
    /// The lookup found no row.
    NotFound,
    /// The caller may not see or change the row.
    Denied,
    /// The submitted row does not have the entity's shape or lacks its key.
    Malformed,
}

/// `ReadIfOwner`: the looked-up row if the caller owns it. The caller must
/// be authenticated, so a guest is refused before any lookup.
pub fn read_if_owner(d: &EntityDescriptor, found: Option<Row>, user: &AuthenticatedUser) -> (r: Result<
    Row,
    Refusal,
>)
    ensures
        r == match found {
            Some(row) => if owned_by(*d, row@, user.data.id) {
                Ok(row)
            } else {
                Err(Refusal::Denied)
            },
            None => Err(Refusal::NotFound),
        },
{
    match found {
        Some(row) => {
            if is_owned(d, &row, user.data.id) {
                Ok(row)
            } else {
                Err(Refusal::Denied)
            }
        },
        None => Err(Refusal::NotFound),
    }
}

/// `ReadIfVisible`: the looked-up row if its visibility flag is unset or
/// false, or if the caller is authenticated and owns it.
pub fn read_if_visible(d: &EntityDescriptor, found: Option<Row>, user: &User) -> (r: Result<Row, Refusal>)
    ensures
        r == match found {
            Some(row) => if visible_to(*d, row@, principal_of(*user)) {
                Ok(row)
            } else {
                Err(Refusal::Denied)
            },
            None => Err(Refusal::NotFound),
        },
{
    match found {
        Some(row) => {
            if is_visible(d, &row, user.id()) {
                Ok(row)
            } else {
                Err(Refusal::Denied)
            }
        },
        None => Err(Refusal::NotFound),
    }
}

/// `CreateAsOwner`: the insert of the submitted row with its owner column set
/// to the caller's id. Denied when the caller has no id or the entity no
/// owner column; malformed when the row has the wrong number of columns.
pub fn create_as_owner(d: &EntityDescriptor, payload: Row, user: &AuthenticatedUser) -> (r: Result<
    Query,
    Refusal,
>)
    requires
        d.wf(),
    ensures
        if d.owner is None || user.data.id is None {
            r == Err::<Query, Refusal>(Refusal::Denied)
        } else if payload@.len() != d.fields@.len() {
            r == Err::<Query, Refusal>(Refusal::Malformed)
        } else {
            r matches Ok(q) && q@ == (
                insert_text(*d),
                args_of(
                    insert_params(*d),
                    payload@.update(d.owner->0 as int, Cell::Int(user.data.id->0)),
                ),
                Seq::<usize>::empty(),
            )
        },
{
    let (o, p) = match (d.owner, user.data.id) {
        (Some(o), Some(p)) => (o, p),
        _ => return Err(Refusal::Denied),
    };
    if payload.values.len() != d.fields.len() {
        return Err(Refusal::Malformed);
    }
    let mut row = payload;
    row.values.set(o, Value::Int(p));
    assert(row@ =~= payload@.update(o as int, Cell::Int(p)));
    let stmt = sql::insert(d);
    Ok(stmt.bind(&row))
}

/// `UpdateIfOwner`: the update of the submitted row, provided the stored row
/// with the same id (`existing`, as looked up by that id) is owned by the
/// caller. Every declared field is written as submitted; the statement
/// itself requires the stored row to still have that key and the caller as
/// its owner.
pub fn update_if_owner(
    d: &EntityDescriptor,
    payload: Row,
    existing: Option<Row>,
    user: &AuthenticatedUser,
) -> (r: Result<Query, Refusal>)
    requires
        d.wf(),
    ensures
        if payload@.len() != d.fields@.len() || key_of(payload@) is None {
            r == Err::<Query, Refusal>(Refusal::Malformed)
        } else if existing is None {
            r == Err::<Query, Refusal>(Refusal::NotFound)
        } else if !may_update(*d, payload@, existing, user.data.id) {
            r == Err::<Query, Refusal>(Refusal::Denied)
        } else {
            r matches Ok(q) && q@ == (
                update_owned_text(*d),
                payload@.skip(1).push(payload@[0]).push(Cell::Int(user.data.id->0)),
                seq![0usize, d.owner->0],
            )
        },
{
    if payload.values.len() != d.fields.len() {
        return Err(Refusal::Malformed);
    }
    let k = match payload.key() {
        Some(k) => k,
        None => return Err(Refusal::Malformed),
    };
    let e = match existing {
        Some(e) => e,
        None => return Err(Refusal::NotFound),
    };
    if e.key() != Some(k) || !is_owned(d, &e, user.data.id) {
        return Err(Refusal::Denied);
    }
    let p = user.data.id.unwrap();
    let stmt = sql::update_owned(d);
    let q = stmt.bind_then(&payload, Value::Int(p));
    assert(d.fields.len() == d.fields@.len());
    assert(args_of(update_params(*d), payload@) =~= payload@.skip(1).push(payload@[0]));
    Ok(q)
}

/// `DeleteIfOwner`: the delete of the stored row with key `id`, provided it
/// is owned by the caller. The statement binds the row's own key and the
/// caller's id, and requires the stored row to still have both.
pub fn delete_if_owner(
    d: &EntityDescriptor,
    id: i32,
    existing: Option<Row>,
    user: &AuthenticatedUser,
) -> (r: Result<Query, Refusal>)
    requires
        d.wf(),
    ensures
        if existing is None {
            r == Err::<Query, Refusal>(Refusal::NotFound)
        } else if !may_delete(*d, id, existing, user.data.id) {
            r == Err::<Query, Refusal>(Refusal::Denied)
        } else {
            r matches Ok(q) && q@ == (
                delete_owned_text(*d),
                seq![Cell::Int(id), Cell::Int(user.data.id->0)],
                seq![0usize, d.owner->0],
            )
        },
{
    let e = match existing {
        Some(e) => e,
        None => return Err(Refusal::NotFound),
    };
    if e.key() != Some(id) || !is_owned(d, &e, user.data.id) {
        return Err(Refusal::Denied);
    }
    let stmt = sql::delete_owned(d);
    let q = stmt.bind_then(&e, Value::Int(user.data.id.unwrap()));
    assert(q@.1 =~= seq![Cell::Int(id), Cell::Int(user.data.id->0)]);
    Ok(q)
}

/// A guest is never shown a row whose visibility flag is true, and neither
/// is anyone but its owner.
pub proof fn lemma_private_rows_only_for_owner(
    d: EntityDescriptor,
    row: Seq<Cell>,
    who: Option<i32>,
)
    requires
        d.visibility matches Some(v) && v < row.len() && row[v as int] == Cell::Bool(true),
    ensures
        visible_to(d, row, None) == false,
        visible_to(d, row, who) <==> owned_by(d, row, who),
{
}

} // verus!
