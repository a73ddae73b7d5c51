//! Relation accessors derived from foreign-key fields: the forward lookup of
//! the referenced row and the reverse collection of referring rows.
use vstd::prelude::*;
use crate::row::{Cell, Row, Value};
use crate::schema::{
    forward_accessor, forward_name, reverse_accessor, reverse_name, EntityDescriptor, KEY_COLUMN,
};
use crate::sql::{lemma_selects_single, select_text, selects, Query};

verus! {

/// A relation edge: field `field` of `source` refers to a row of `target`.
/// `forward` fetches that row; `reverse`, generated on the target, collects
/// the referring rows.
#[derive(Clone, Debug)]
pub struct RelationEdge {
    pub source: String,
    pub field: usize,
    pub target: String,
    pub forward: String,
    pub reverse: String,
}

/// Field `fk` of `source` is a foreign key to the entity named `target`.
pub open spec fn is_edge(source: EntityDescriptor, fk: int, target: Seq<char>) -> bool {
    &&& 1 <= fk < source.fields@.len()
    &&& source.fields@[fk].relation matches Some(rel) && rel.target@ == target
}

/// The lookup of the row that `a`'s foreign key `fk` refers to.
pub open spec fn forward_query(target: EntityDescriptor, fk: int, a: Seq<Cell>) -> (
    Seq<char>,
    Seq<Cell>,
    Seq<usize>,
) {
    (select_text(target.table@, KEY_COLUMN@), seq![a[fk]], seq![0usize])
}

/// The lookup of the rows of `source` whose field `fk` refers to `b`.
pub open spec fn reverse_query(source: EntityDescriptor, fk: int, b: Seq<Cell>) -> (
    Seq<char>,
    Seq<Cell>,
    Seq<usize>,
) {
    (select_text(source.table@, source.fields@[fk].name@), seq![b[0]], seq![fk as usize])
}

/// The relation edges of an entity, one for each foreign-key field, in field order.
pub fn relation_edges(d: &EntityDescriptor) -> (r: Vec<RelationEdge>)
    ensures
        forall|k: int|
            0 <= k < r@.len() ==> {
                let e = #[trigger] r@[k];
                &&& e.field < d.fields@.len()
                &&& d.fields@[e.field as int].relation matches Some(rel) && {
                    &&& e.target@ == rel.target@
                    &&& e.reverse@ == reverse_name(d.name@, rel)
                }
                &&& e.source@ == d.name@
                &&& e.forward@ == forward_name(d.fields@[e.field as int].name@)
            },
        forall|k: int, l: int| 0 <= k < l < r@.len() ==> r@[k].field < r@[l].field,
        forall|i: int|
            0 <= i < d.fields@.len() && (#[trigger] d.fields@[i]).relation is Some ==> exists|k: int|
                0 <= k < r@.len() && r@[k].field == i,
{
    let mut r: Vec<RelationEdge> = Vec::new();
    let mut i: usize = 0;
    while i < d.fields.len()
        invariant
            i <= d.fields@.len(),
            forall|k: int|
                0 <= k < r@.len() ==> {
                    let e = #[trigger] r@[k];
                    &&& e.field < i
                    &&& d.fields@[e.field as int].relation matches Some(rel) && {
                        &&& e.target@ == rel.target@
                        &&& e.reverse@ == reverse_name(d.name@, rel)
                    }
                    &&& e.source@ == d.name@
                    &&& e.forward@ == forward_name(d.fields@[e.field as int].name@)
                },
            forall|k: int, l: int| 0 <= k < l < r@.len() ==> r@[k].field < r@[l].field,
            forall|j: int|
                0 <= j < i && (#[trigger] d.fields@[j]).relation is Some ==> exists|k: int|
                    0 <= k < r@.len() && r@[k].field == j,
        decreases d.fields.len() - i,
    {
        let ghost old_r = r@;
        if let Some(rel) = &d.fields[i].relation {
            let e = RelationEdge {
                source: d.name.clone(),
                field: i,
                target: rel.target.clone(),
                forward: forward_accessor(d.fields[i].name.as_str()),
                reverse: reverse_accessor(d.name.as_str(), rel),
            };
            r.push(e);
            assert forall|j: int|
                0 <= j <= i && (#[trigger] d.fields@[j]).relation is Some implies exists|k: int|
                    0 <= k < r@.len() && r@[k].field == j by {
                if j == i {
                    assert(r@[r@.len() - 1].field == i);
                } else {
                    let k = choose|k: int| 0 <= k < old_r.len() && old_r[k].field == j;
                    assert(r@[k] == old_r[k]);
                }
            }
        }
        i = i + 1;
    }
    r
}

/// The forward accessor: the row of `target` whose key equals `a`'s field `fk`.
pub fn forward_lookup(target: &EntityDescriptor, fk: usize, a: &Row) -> (r: Query)
    requires
        fk < a@.len(),
    ensures
        r@ == forward_query(*target, fk as int, a@),
{
    let mut text = String::from_str("SELECT * FROM ");
    text.append(target.table.as_str());
    text.append(" WHERE ");
    text.append(KEY_COLUMN);
    text.append(" = $1");
    let mut args = Vec::new();
    args.push(a.values[fk].copy());
    let mut filter = Vec::new();
    filter.push(0);
    let r = Query { text, args, filter };
    assert(r@.1 =~= seq![a@[fk as int]]);
    assert(r@.2 =~= seq![0usize]);
    r
}

/// The reverse accessor: the rows of `source` whose field `fk` equals `b`'s key.
/// A `b` that has no key yet binds null, which no row matches.
pub fn reverse_lookup(source: &EntityDescriptor, fk: usize, b: &Row) -> (r: Query)
    requires
        fk < source.fields@.len(),
        b@.len() > 0,
    ensures
        r@ == reverse_query(*source, fk as int, b@),
{
    let mut text = String::from_str("SELECT * FROM ");
    text.append(source.table.as_str());
    text.append(" WHERE ");
    text.append(source.fields[fk].name.as_str());
    text.append(" = $1");
    let mut args = Vec::new();
    args.push(b.values[0].copy());
    let mut filter = Vec::new();
    filter.push(fk);
    let r = Query { text, args, filter };
    assert(r@.1 =~= seq![b@[0]]);
    assert(r@.2 =~= seq![fk]);
    r
}

/// One argument of the validated constructor: a plain value, or the key of
/// a related row, absent when that row has not been stored.
#[derive(Clone, Debug)]
pub enum CtorArg {
    Raw(Value),
    Related(Option<i32>),
}

/// The column value an argument gives.
pub open spec fn ctor_cell(a: CtorArg) -> Cell {
    match a {
        CtorArg::Raw(v) => v@,
        CtorArg::Related(Some(k)) => Cell::Int(k),
        CtorArg::Related(None) => Cell::Null,
    }
}

/// One argument for each declared field, related rows only for foreign keys.
pub open spec fn ctor_shape(d: EntityDescriptor, args: Seq<CtorArg>) -> bool {
    &&& args.len() + 1 == d.fields@.len()
    &&& forall|i: int|
        0 <= i < args.len() && #[trigger] args[i] is Related ==> d.fields@[i + 1].relation is Some
}

/// Some argument refers to a related row that has not been stored.
pub open spec fn refers_unstored(args: Seq<CtorArg>) -> bool {
    exists|i: int| 0 <= i < args.len() && #[trigger] args[i] == CtorArg::Related(None)
}

/// The validated constructor of any entity: a row not stored yet whose
/// foreign keys take the keys of the given related rows. Absent, without
/// failing, when a related row has not been stored, or when the arguments
/// do not fit the entity.
pub fn construct(d: &EntityDescriptor, args: &Vec<CtorArg>) -> (r: Option<Row>)
    ensures
        r is None <==> (!ctor_shape(*d, args@) || refers_unstored(args@)),
        r matches Some(row) ==> row@ == seq![Cell::Null] + args@.map_values(|a: CtorArg| ctor_cell(a)),
{
    if d.fields.len() == 0 || args.len() != d.fields.len() - 1 {
        return None;
    }
    let mut values: Vec<Value> = Vec::new();
    values.push(Value::Null);
    let mut i: usize = 0;
    while i < args.len()
        invariant
            args@.len() + 1 == d.fields@.len(),
            i <= args@.len(),
            values@.len() == i + 1,
            values@[0]@ == Cell::Null,
            forall|k: int| 0 <= k < i ==> #[trigger] values@[k + 1]@ == ctor_cell(args@[k]),
            forall|k: int|
                0 <= k < i && #[trigger] args@[k] is Related ==> d.fields@[k + 1].relation is Some,
            forall|k: int| 0 <= k < i ==> #[trigger] args@[k] != CtorArg::Related(None),
        decreases args.len() - i,
    {
        let v = match &args[i] {
            CtorArg::Raw(v) => v.copy(),
            CtorArg::Related(id) => {
                if d.fields[i + 1].relation.is_none() {
                    assert(!ctor_shape(*d, args@)) by {
                        assert(args@[i as int] is Related);
                    }
                    return None;
                }
                match id {
                    Some(k) => Value::Int(*k),
                    None => {
                        assert(refers_unstored(args@)) by {
                            assert(args@[i as int] == CtorArg::Related(None));
                        }
                        return None;
                    },
                }
            },
        };
        values.push(v);
        i = i + 1;
    }
    let row = Row { values };
    assert(row@ =~= seq![Cell::Null] + args@.map_values(|a: CtorArg| ctor_cell(a))) by {
        assert forall|k: int| 1 <= k < row@.len() implies row@[k] == ctor_cell(args@[k - 1]) by {
            assert(values@[(k - 1) + 1]@ == ctor_cell(args@[k - 1]));
        }
    }
    Some(row)
}

/// Along a relation edge from `A` to `B` on field `fk`: the forward accessor
/// of an `A` row selects exactly the `B` rows whose key equals the foreign
/// value, and the reverse accessor of a `B` row selects, out of any table of
/// `A` rows, exactly those whose foreign value equals the key of `B`.
pub proof fn lemma_relation_accessors(
    source: EntityDescriptor,
    fk: int,
    target: EntityDescriptor,
    a: Seq<Cell>,
    b: Seq<Cell>,
    table: Seq<Seq<Cell>>,
)
    requires
        source.wf(),
        target.wf(),
        is_edge(source, fk, target.name@),
        a.len() == source.fields@.len(),
        b.len() == target.fields@.len(),
    ensures
        selects(forward_query(target, fk, a).2, forward_query(target, fk, a).1, b) <==> (a[fk]
            !is Null && b[0] == a[fk]),
        selects(reverse_query(source, fk, b).2, reverse_query(source, fk, b).1, a) <==> (b[0]
            !is Null && a[fk] == b[0]),
        b[0] !is Null ==> Set::new(
            |r: Seq<Cell>|
                table.contains(r) && selects(
                    reverse_query(source, fk, b).2,
                    reverse_query(source, fk, b).1,
                    r,
                ),
        ) == Set::new(|r: Seq<Cell>| table.contains(r) && r.len() > fk && r[fk] == b[0]),
{
    assert(source.fields.len() == source.fields@.len());
    let q = reverse_query(source, fk, b);
    assert(seq![a[fk]].last() == a[fk]);
    assert(q.1.last() == b[0]);
    lemma_selects_single(0, seq![a[fk]], b);
    lemma_selects_single(fk as usize, q.1, a);
    assert forall|r: Seq<Cell>| selects(q.2, q.1, r) <==> (b[0] !is Null && r.len() > fk && r[fk] == b[0]) by {
        lemma_selects_single(fk as usize, q.1, r);
    }
    if b[0] !is Null {
        let lhs = Set::new(|r: Seq<Cell>| table.contains(r) && selects(q.2, q.1, r));
        let rhs = Set::new(|r: Seq<Cell>| table.contains(r) && r.len() > fk && r[fk] == b[0]);
        assert forall|r: Seq<Cell>| lhs.contains(r) <==> rhs.contains(r) by {
            lemma_selects_single(fk as usize, q.1, r);
        }
        assert(lhs =~= rhs);
    }
}

} // verus!
