//! Statement templates derived from a descriptor. Table and column names are
//! written into the text; only data values are bound, to the 1-based
//! placeholders `$1`, `$2`, ... in order.
use vstd::prelude::*;
use crate::row::{Cell, Row, Value};
use crate::schema::{EntityDescriptor, FieldDef, KEY_COLUMN};
use crate::text::{decimal, join, push_decimal};

verus! {

/// A statement template. `params` lists, placeholder by placeholder, the
/// column of the bound row whose value fills it. `filter` lists the columns
/// of the addressed table that the `WHERE` clause compares, in order, with
/// the last placeholders; it is empty for a statement without one.
#[derive(Clone, Debug)]
pub struct Statement {
    pub text: String,
    pub params: Vec<usize>,
    pub filter: Vec<usize>,
}

/// A statement together with the values bound to its placeholders.
#[derive(Clone, Debug)]
pub struct Query {
    pub text: String,
    pub args: Vec<Value>,
    pub filter: Vec<usize>,
}

impl View for Query {
    type V = (Seq<char>, Seq<Cell>, Seq<usize>);

    open spec fn view(&self) -> (Seq<char>, Seq<Cell>, Seq<usize>) {
        (self.text@, self.args@.map_values(|v: Value| v@), self.filter@)
    }
}

/// The values a row gives to the placeholders listed in `params`.
pub open spec fn args_of(params: Seq<usize>, row: Seq<Cell>) -> Seq<Cell> {
    params.map_values(|p: usize| row[p as int])
}

/// Whether a row of the addressed table satisfies the `WHERE` clause of a
/// statement with these arguments: each filtered column equals its
/// argument. A null argument matches nothing.
pub open spec fn selects(filter: Seq<usize>, args: Seq<Cell>, row: Seq<Cell>) -> bool {
    &&& filter.len() > 0
    &&& args.len() >= filter.len()
    &&& forall|i: int|
        0 <= i < filter.len() ==> {
            let a = args[args.len() - filter.len() + i];
            &&& a !is Null
            &&& #[trigger] filter[i] < row.len()
            &&& row[filter[i] as int] == a
        }
}

/// The names of the declared (non-key) columns, in order.
pub open spec fn columns(fields: Seq<FieldDef>) -> Seq<Seq<char>> {
    Seq::new((fields.len() - 1) as nat, |i: int| fields[i + 1].name@)
}

pub open spec fn placeholder(i: nat) -> Seq<char> {
    "$"@ + decimal(i)
}

/// `$1` to `$n`.
pub open spec fn placeholders(n: nat) -> Seq<Seq<char>> {
    Seq::new(n, |i: int| placeholder((i + 1) as nat))
}

/// `c1 = $1`, `c2 = $2`, ... over the declared columns.
pub open spec fn assignments(fields: Seq<FieldDef>) -> Seq<Seq<char>> {
    Seq::new(
        (fields.len() - 1) as nat,
        |i: int| fields[i + 1].name@ + " = "@ + placeholder((i + 1) as nat),
    )
}

/// The declared columns, 1 to n - 1, in order.
pub open spec fn declared_params(n: nat) -> Seq<usize> {
    Seq::new((n - 1) as nat, |i: int| (i + 1) as usize)
}

pub open spec fn select_text(table: Seq<char>, column: Seq<char>) -> Seq<char> {
    "SELECT * FROM "@ + table + " WHERE "@ + column + " = $1"@
}

pub open spec fn insert_text(d: EntityDescriptor) -> Seq<char> {
    let n = d.fields@.len();
    "INSERT INTO "@ + d.table@ + " ("@ + join(columns(d.fields@), ","@) + ") VALUES ("@ + join(
        placeholders((n - 1) as nat),
        ","@,
    ) + ") RETURNING *"@
}

pub open spec fn update_text(d: EntityDescriptor) -> Seq<char> {
    let n = d.fields@.len();
    "UPDATE "@ + d.table@ + " SET "@ + join(assignments(d.fields@), ","@) + " WHERE id = "@
        + placeholder(n as nat) + " RETURNING *"@
}

pub open spec fn delete_text(d: EntityDescriptor) -> Seq<char> {
    "DELETE FROM "@ + d.table@ + " WHERE id = $1"@
}

/// The name of the owner column.
pub open spec fn owner_column(d: EntityDescriptor) -> Seq<char> {
    d.fields@[d.owner->0 as int].name@
}

/// The update of a row that must still have the given key and owner.
pub open spec fn update_owned_text(d: EntityDescriptor) -> Seq<char> {
    let n = d.fields@.len();
    "UPDATE "@ + d.table@ + " SET "@ + join(assignments(d.fields@), ","@) + " WHERE id = "@
        + placeholder(n as nat) + " AND "@ + owner_column(d) + " = "@ + placeholder((n + 1) as nat)
        + " RETURNING *"@
}

/// The delete of a row that must still have the given key and owner.
pub open spec fn delete_owned_text(d: EntityDescriptor) -> Seq<char> {
    "DELETE FROM "@ + d.table@ + " WHERE id = $1 AND "@ + owner_column(d) + " = $2"@
}


/// The placeholders of the insert statement: each declared column once, in order.
pub open spec fn insert_params(d: EntityDescriptor) -> Seq<usize> {
    declared_params(d.fields@.len() as nat)
}

/// The placeholders of the update statement: the declared columns in order,
/// then the primary key for the `WHERE` clause.
pub open spec fn update_params(d: EntityDescriptor) -> Seq<usize> {
    declared_params(d.fields@.len() as nat).push(0)
}

pub proof fn lemma_join_step(parts: Seq<Seq<char>>, sep: Seq<char>, i: int)
    requires
        0 <= i < parts.len(),
    ensures
        join(parts.take(i + 1), sep) == join(parts.take(i), sep) + (if i == 0 {
            Seq::empty()
        } else {
            sep
        }) + parts[i],
{
    let t = parts.take(i + 1);
    if i == 0 {
        assert(join(parts.take(0), sep) =~= Seq::empty());
        assert(join(t, sep) == t[0]);
        assert(Seq::<char>::empty() + Seq::<char>::empty() + parts[0] =~= parts[0]);
    } else {
        assert(t.drop_last() =~= parts.take(i));
        assert(t.last() == parts[i]);
    }
}

fn one_column(c: usize) -> (r: Vec<usize>)
    ensures
        r@ == seq![c],
{
    let mut r: Vec<usize> = Vec::new();
    r.push(c);
    assert(r@ =~= seq![c]);
    r
}

fn copy_columns(v: &Vec<usize>) -> (r: Vec<usize>)
    ensures
        r@ == v@,
{
    let mut r: Vec<usize> = Vec::new();
    let mut i: usize = 0;
    while i < v.len()
        invariant
            i <= v@.len(),
            r@ == v@.take(i as int),
        decreases v.len() - i,
    {
        r.push(v[i]);
        i = i + 1;
        assert(r@ =~= v@.take(i as int));
    }
    assert(v@.take(i as int) =~= v@);
    r
}

fn push_columns(s: &mut String, fields: &Vec<FieldDef>)
    requires
        fields@.len() >= 1,
    ensures
        final(s)@ == old(s)@ + join(columns(fields@), ","@),
{
    let n = fields.len();
    let ghost cols = columns(fields@);
    let mut i: usize = 1;
    while i < n
        invariant
            n == fields@.len(),
            1 <= i <= n,
            cols == columns(fields@),
            s@ == old(s)@ + join(cols.take(i - 1), ","@),
        decreases n - i,
    {
        proof {
            lemma_join_step(cols, ","@, i - 1);
        }
        if i > 1 {
            s.append(",");
        }
        s.append(fields[i].name.as_str());
        assert(cols[i - 1] == fields@[i as int].name@);
        i = i + 1;
        assert(s@ =~= old(s)@ + join(cols.take(i - 1), ","@));
    }
    assert(cols.take(n - 1) =~= cols);
}

fn push_placeholders(s: &mut String, n: usize)
    ensures
        final(s)@ == old(s)@ + join(placeholders(n as nat), ","@),
{
    let ghost ps = placeholders(n as nat);
    let mut i: usize = 0;
    while i < n
        invariant
            i <= n,
            ps == placeholders(n as nat),
            s@ == old(s)@ + join(ps.take(i as int), ","@),
        decreases n - i,
    {
        proof {
            lemma_join_step(ps, ","@, i as int);
        }
        if i > 0 {
            s.append(",");
        }
        s.append("$");
        push_decimal(s, i as u128 + 1);
        assert(ps[i as int] == placeholder((i + 1) as nat));
        i = i + 1;
        assert(s@ =~= old(s)@ + join(ps.take(i as int), ","@));
    }
    assert(ps.take(n as int) =~= ps);
}

fn push_assignments(s: &mut String, fields: &Vec<FieldDef>)
    requires
        fields@.len() >= 1,
    ensures
        final(s)@ == old(s)@ + join(assignments(fields@), ","@),
{
    let n = fields.len();
    let ghost asg = assignments(fields@);
    let mut i: usize = 1;
    while i < n
        invariant
            n == fields@.len(),
            1 <= i <= n,
            asg == assignments(fields@),
            s@ == old(s)@ + join(asg.take(i - 1), ","@),
        decreases n - i,
    {
        proof {
            lemma_join_step(asg, ","@, i - 1);
        }
        if i > 1 {
            s.append(",");
        }
        let ghost before = s@;
        s.append(fields[i].name.as_str());
        s.append(" = $");
        push_decimal(s, i as u128);
        assert(asg[i - 1] =~= fields@[i as int].name@ + " = $"@ + decimal(i as nat)) by {
            reveal_strlit(" = ");
            reveal_strlit(" = $");
            reveal_strlit("$");
        }
        assert(s@ =~= before + asg[i - 1]);
        i = i + 1;
        assert(s@ =~= old(s)@ + join(asg.take(i - 1), ","@));
    }
    assert(asg.take(n - 1) =~= asg);
}

fn declared_param_list(n: usize) -> (r: Vec<usize>)
    requires
        n >= 1,
    ensures
        r@ == declared_params(n as nat),
{
    let mut r: Vec<usize> = Vec::new();
    let mut i: usize = 1;
    while i < n
        invariant
            1 <= i <= n,
            r@ == declared_params(i as nat),
        decreases n - i,
    {
        r.push(i);
        i = i + 1;
        assert(r@ =~= declared_params(i as nat));
    }
    r
}

/// `SELECT * FROM <table> WHERE id = $1`, bound to the key of a row.
pub fn find_by_id(d: &EntityDescriptor) -> (r: Statement)
    ensures
        r.text@ == select_text(d.table@, KEY_COLUMN@),
        r.params@ == seq![0usize],
        r.filter@ == seq![0usize],
{
    let mut text = String::from_str("SELECT * FROM ");
    text.append(d.table.as_str());
    text.append(" WHERE ");
    text.append(KEY_COLUMN);
    text.append(" = $1");
    let mut params: Vec<usize> = Vec::new();
    params.push(0);
    assert(params@ =~= seq![0usize]);
    Statement { text, params, filter: one_column(0) }
}

/// `SELECT * FROM <table> WHERE <column> = $1` for a column of the entity.
/// The column name must be one of the descriptor's, so that no other text
/// reaches the statement; the first column of that name is used.
pub fn find_by_column(d: &EntityDescriptor, column: &str) -> (r: Option<Statement>)
    ensures
        match r {
            Some(s) => exists|c: usize|
                {
                    &&& c < d.fields@.len()
                    &&& #[trigger] d.fields@[c as int].name@ == column@
                    &&& forall|k: int| 0 <= k < c ==> d.fields@[k].name@ != column@
                    &&& s.text@ == select_text(d.table@, column@)
                    &&& s.params@ == seq![c]
                    &&& s.filter@ == seq![c]
                },
            None => forall|k: int| 0 <= k < d.fields@.len() ==> d.fields@[k].name@ != column@,
        },
{
    let mut c: usize = 0;
    while c < d.fields.len()
        invariant
            c <= d.fields@.len(),
            forall|k: int| 0 <= k < c ==> d.fields@[k].name@ != column@,
        decreases d.fields.len() - c,
    {
        if d.fields[c].name.as_str().unicode_len() == column.unicode_len() {
            let found = String::from_str(column);
            if d.fields[c].name == found {
                let mut text = String::from_str("SELECT * FROM ");
                text.append(d.table.as_str());
                text.append(" WHERE ");
                text.append(column);
                text.append(" = $1");
                let mut params: Vec<usize> = Vec::new();
                params.push(c);
                assert(params@ =~= seq![c]);
                return Some(Statement { text, params, filter: one_column(c) });
            }
        }
        c = c + 1;
    }
    None
}

/// `INSERT INTO <table> (<declared columns>) VALUES ($1,...) RETURNING *`.
pub fn insert(d: &EntityDescriptor) -> (r: Statement)
    requires
        d.wf(),
    ensures
        r.text@ == insert_text(*d),
        r.params@ == insert_params(*d),
        r.filter@.len() == 0,
{
    let n = d.fields.len();
    let mut text = String::from_str("INSERT INTO ");
    text.append(d.table.as_str());
    text.append(" (");
    push_columns(&mut text, &d.fields);
    text.append(") VALUES (");
    push_placeholders(&mut text, n - 1);
    text.append(") RETURNING *");
    Statement { text, params: declared_param_list(n), filter: Vec::new() }
}

/// `UPDATE <table> SET c1 = $1,... WHERE id = $n RETURNING *`.
pub fn update(d: &EntityDescriptor) -> (r: Statement)
    requires
        d.wf(),
    ensures
        r.text@ == update_text(*d),
        r.params@ == update_params(*d),
        r.filter@ == seq![0usize],
{
    let n = d.fields.len();
    let mut text = String::from_str("UPDATE ");
    text.append(d.table.as_str());
    text.append(" SET ");
    push_assignments(&mut text, &d.fields);
    text.append(" WHERE id = $");
    push_decimal(&mut text, n as u128);
    text.append(" RETURNING *");
    let mut params = declared_param_list(n);
    params.push(0);
    proof {
        reveal_strlit(" WHERE id = $");
        reveal_strlit(" WHERE id = ");
        reveal_strlit("$");
        assert(text@ =~= update_text(*d));
    }
    Statement { text, params, filter: one_column(0) }
}

/// `DELETE FROM <table> WHERE id = $1`, bound to the key of a row.
pub fn delete(d: &EntityDescriptor) -> (r: Statement)
    ensures
        r.text@ == delete_text(*d),
        r.params@ == seq![0usize],
        r.filter@ == seq![0usize],
{
    let mut text = String::from_str("DELETE FROM ");
    text.append(d.table.as_str());
    text.append(" WHERE id = $1");
    let mut params: Vec<usize> = Vec::new();
    params.push(0);
    assert(params@ =~= seq![0usize]);
    Statement { text, params, filter: one_column(0) }
}

/// `UPDATE <table> SET c1 = $1,... WHERE id = $n AND <owner> = $n+1 RETURNING *`:
/// the update of a row that still has the caller as its owner, in one
/// statement. The row fills the first `n` placeholders as in `update`; the
/// last one takes the caller's id, bound apart from the row (`bind_then`).
pub fn update_owned(d: &EntityDescriptor) -> (r: Statement)
    requires
        d.wf(),
        d.owner is Some,
    ensures
        r.text@ == update_owned_text(*d),
        r.params@ == update_params(*d),
        r.filter@ == seq![0usize, d.owner->0],
{
    let n = d.fields.len();
    let o = d.owner.unwrap();
    let mut text = String::from_str("UPDATE ");
    text.append(d.table.as_str());
    text.append(" SET ");
    push_assignments(&mut text, &d.fields);
    text.append(" WHERE id = $");
    push_decimal(&mut text, n as u128);
    text.append(" AND ");
    text.append(d.fields[o].name.as_str());
    text.append(" = $");
    push_decimal(&mut text, n as u128 + 1);
    text.append(" RETURNING *");
    let mut params = declared_param_list(n);
    params.push(0);
    let mut filter = one_column(0);
    filter.push(o);
    proof {
        reveal_strlit(" WHERE id = $");
        reveal_strlit(" WHERE id = ");
        reveal_strlit(" = $");
        reveal_strlit(" = ");
        reveal_strlit("$");
        assert(text@ =~= update_owned_text(*d));
        assert(filter@ =~= seq![0usize, o]);
    }
    Statement { text, params, filter }
}

/// `DELETE FROM <table> WHERE id = $1 AND <owner> = $2`: the delete of a row
/// that still has the caller as its owner, in one statement. The row gives
/// its key; the caller's id is bound apart from it (`bind_then`).
pub fn delete_owned(d: &EntityDescriptor) -> (r: Statement)
    requires
        d.wf(),
        d.owner is Some,
    ensures
        r.text@ == delete_owned_text(*d),
        r.params@ == seq![0usize],
        r.filter@ == seq![0usize, d.owner->0],
{
    let o = d.owner.unwrap();
    let mut text = String::from_str("DELETE FROM ");
    text.append(d.table.as_str());
    text.append(" WHERE id = $1 AND ");
    text.append(d.fields[o].name.as_str());
    text.append(" = $2");
    let params = one_column(0);
    let mut filter = one_column(0);
    filter.push(o);
    assert(filter@ =~= seq![0usize, o]);
    Statement { text, params, filter }
}

impl Statement {
    /// Binds, placeholder by placeholder, the values of the listed columns of `row`.
    pub fn bind(&self, row: &Row) -> (r: Query)
        requires
            forall|i: int| 0 <= i < self.params@.len() ==> #[trigger] self.params@[i] < row@.len(),
        ensures
            r@ == (self.text@, args_of(self.params@, row@), self.filter@),
    {
        let mut args: Vec<Value> = Vec::new();
        let mut i: usize = 0;
        while i < self.params.len()
            invariant
                i <= self.params@.len(),
                forall|k: int| 0 <= k < self.params@.len() ==> #[trigger] self.params@[k] < row@.len(),
                args@.len() == i,
                forall|k: int| 0 <= k < i ==> #[trigger] args@[k]@ == row@[self.params@[k] as int],
            decreases self.params.len() - i,
        {
            let p = self.params[i];
            args.push(row.values[p].copy());
            i = i + 1;
        }
        let r = Query { text: self.text.clone(), args, filter: copy_columns(&self.filter) };
        assert(r@.1 =~= args_of(self.params@, row@));
        r
    }

    /// Binds the listed columns of `row`, then `extra` to the last placeholder.
    pub fn bind_then(&self, row: &Row, extra: Value) -> (r: Query)
        requires
            forall|i: int| 0 <= i < self.params@.len() ==> #[trigger] self.params@[i] < row@.len(),
        ensures
            r@ == (self.text@, args_of(self.params@, row@).push(extra@), self.filter@),
    {
        let q = self.bind(row);
        let Query { text, mut args, filter } = q;
        let ghost before = args@;
        args.push(extra);
        let r = Query { text, args, filter };
        assert(r@.1 =~= args_of(self.params@, row@).push(extra@)) by {
            assert(before.map_values(|v: Value| v@) == args_of(self.params@, row@));
        }
        r
    }

    /// Binds one value to a statement with one placeholder.
    pub fn bind_value(&self, v: Value) -> (r: Query)
        ensures
            r@ == (self.text@, seq![v@], self.filter@),
    {
        let mut args: Vec<Value> = Vec::new();
        args.push(v);
        let r = Query { text: self.text.clone(), args, filter: copy_columns(&self.filter) };
        assert(r@.1 =~= seq![v@]);
        r
    }
}

/// Insert binds one value for each declared field, in the declared order, and
/// nothing else: for every row of the entity the arguments are its non-key
/// values.
pub proof fn lemma_insert_binds_declared_fields(d: EntityDescriptor, row: Seq<Cell>)
    requires
        d.wf(),
        row.len() == d.fields@.len(),
    ensures
        insert_params(d).len() == d.fields@.len() - 1,
        forall|i: int| 0 <= i < insert_params(d).len() ==> #[trigger] insert_params(d)[i] == i + 1,
        args_of(insert_params(d), row) == row.skip(1),
{
    assert(d.fields.len() == d.fields@.len());
    assert(args_of(insert_params(d), row) =~= row.skip(1));
}

/// Update binds every declared field in the declared order, then exactly one
/// more value, last: the primary key that the `WHERE` clause compares with.
pub proof fn lemma_update_binds_fields_then_key(d: EntityDescriptor, row: Seq<Cell>)
    requires
        d.wf(),
        row.len() == d.fields@.len(),
    ensures
        update_params(d).len() == d.fields@.len(),
        forall|i: int| 0 <= i < update_params(d).len() - 1 ==> #[trigger] update_params(d)[i] == i + 1,
        update_params(d).last() == 0,
        args_of(update_params(d), row) == row.skip(1).push(row[0]),
        forall|other: Seq<Cell>|
            #[trigger] selects(seq![0usize], args_of(update_params(d), row), other) <==> (row[0]
                !is Null && other.len() > 0 && other[0] == row[0]),
{
    assert(d.fields.len() == d.fields@.len());
    let args = args_of(update_params(d), row);
    assert(args =~= row.skip(1).push(row[0]));
    assert forall|other: Seq<Cell>|
        #[trigger] selects(seq![0usize], args_of(update_params(d), row), other) <==> (row[0]
            !is Null && other.len() > 0 && other[0] == row[0]) by {
        lemma_selects_single(0, args, other);
        assert(args.last() == row[0]);
    }
}

/// The `WHERE` clause of one column: a row matches exactly when that column
/// equals the last argument, which is not null.
pub proof fn lemma_selects_single(c: usize, args: Seq<Cell>, row: Seq<Cell>)
    requires
        args.len() >= 1,
    ensures
        selects(seq![c], args, row) <==> {
            &&& args.last() !is Null
            &&& c < row.len()
            &&& row[c as int] == args.last()
        },
{
    let f = seq![c];
    if selects(f, args, row) {
        assert(f[0] == c);
    }
    if args.last() !is Null && c < row.len() && row[c as int] == args.last() {
        assert forall|i: int| 0 <= i < f.len() implies {
            let a = args[args.len() - f.len() + i];
            &&& a !is Null
            &&& #[trigger] f[i] < row.len()
            &&& row[f[i] as int] == a
        } by {
            assert(f[0] == c);
        }
    }
}

/// The `WHERE` clause of two columns: a row matches exactly when both
/// columns equal the last two arguments, neither of them null.
pub proof fn lemma_selects_pair(c0: usize, c1: usize, args: Seq<Cell>, row: Seq<Cell>)
    requires
        args.len() >= 2,
    ensures
        selects(seq![c0, c1], args, row) <==> {
            &&& args[args.len() - 2] !is Null
            &&& args[args.len() - 1] !is Null
            &&& c0 < row.len()
            &&& c1 < row.len()
            &&& row[c0 as int] == args[args.len() - 2]
            &&& row[c1 as int] == args[args.len() - 1]
        },
{
    let f = seq![c0, c1];
    if selects(f, args, row) {
        assert(f[0] == c0 && f[1] == c1);
    }
    if args[args.len() - 2] !is Null && args[args.len() - 1] !is Null && c0 < row.len() && c1
        < row.len() && row[c0 as int] == args[args.len() - 2] && row[c1 as int] == args[args.len()
        - 1] {
        assert forall|i: int| 0 <= i < f.len() implies {
            let a = args[args.len() - f.len() + i];
            &&& a !is Null
            &&& #[trigger] f[i] < row.len()
            &&& row[f[i] as int] == a
        } by {
            if i == 0 {
                assert(f[0] == c0);
            } else {
                assert(f[1] == c1);
            }
        }
    }
}

/// The owner-guarded update of a row binds every declared field of the
/// submitted row in order, then its key, then the caller's id; it changes
/// exactly the stored row that has that key and is owned by the caller.
pub proof fn lemma_update_owned_binds(
    d: EntityDescriptor,
    row: Seq<Cell>,
    caller: i32,
    other: Seq<Cell>,
)
    requires
        d.wf(),
        d.owner is Some,
        row.len() == d.fields@.len(),
    ensures
        args_of(update_params(d), row).push(Cell::Int(caller)) == row.skip(1).push(row[0]).push(
            Cell::Int(caller),
        ),
        selects(
            seq![0usize, d.owner->0],
            args_of(update_params(d), row).push(Cell::Int(caller)),
            other,
        ) <==> {
            &&& row[0] !is Null
            &&& other.len() > d.owner->0
            &&& other[0] == row[0]
            &&& other[d.owner->0 as int] == Cell::Int(caller)
        },
{
    assert(d.fields.len() == d.fields@.len());
    let o = d.owner->0;
    let args = args_of(update_params(d), row).push(Cell::Int(caller));
    assert(args =~= row.skip(1).push(row[0]).push(Cell::Int(caller)));
    lemma_selects_pair(0, o, args, other);
}

} // verus!
