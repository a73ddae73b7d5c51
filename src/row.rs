//! Stored rows: the primary key followed by the declared fields.
use vstd::prelude::*;

verus! {

/// A point in time: seconds since the Unix epoch and the nanoseconds past them.
#[derive(Clone, Copy, Debug, PartialEq, Eq, Structural)]
pub struct Timestamp {
    pub secs: i64,
    pub nanos: u32,
}

/// One column value as it is bound to a statement or read from a row.
#[derive(Clone, Debug)]
pub enum Value {
    Null,
    Int(i32),
    Bool(bool),
    Text(String),
    Bytes(Vec<u8>),
    Time(Timestamp),
}

/// The mathematical content of a `Value`.
pub enum Cell {
    Null,
    Int(i32),
    Bool(bool),
    Text(Seq<char>),
    Bytes(Seq<u8>),
    Time(Timestamp),
}

impl View for Value {
    type V = Cell;

    open spec fn view(&self) -> Cell {
        match self {
            Value::Null => Cell::Null,
            Value::Int(i) => Cell::Int(*i),
            Value::Bool(b) => Cell::Bool(*b),
            Value::Text(s) => Cell::Text(s@),
            Value::Bytes(b) => Cell::Bytes(b@),
            Value::Time(t) => Cell::Time(*t),
        }
    }
}

/// The values of a row, column by column: `values[0]` is the primary key.
#[derive(Clone, Debug)]
pub struct Row {
    pub values: Vec<Value>,
}

impl View for Row {
    type V = Seq<Cell>;

    open spec fn view(&self) -> Seq<Cell> {
        self.values@.map_values(|v: Value| v@)
    }
}

/// The integer in a cell, if it holds one.
pub open spec fn int_of(c: Cell) -> Option<i32> {
    match c {
        Cell::Int(i) => Some(i),
        _ => None,
    }
}

/// The primary key of a row: present once the row is stored.
pub open spec fn key_of(row: Seq<Cell>) -> Option<i32> {
    if row.len() > 0 {
        int_of(row[0])
    } else {
        None
    }
}

/// The integer at column `c` of a row, if that column holds one.
pub open spec fn int_at(row: Seq<Cell>, c: int) -> Option<i32> {
    if 0 <= c < row.len() {
        int_of(row[c])
    } else {
        None
    }
}

pub open spec fn opt_int_cell(v: Option<i32>) -> Cell {
    match v {
        Some(i) => Cell::Int(i),
        None => Cell::Null,
    }
}

pub open spec fn opt_bool_cell(v: Option<bool>) -> Cell {
    match v {
        Some(b) => Cell::Bool(b),
        None => Cell::Null,
    }
}

pub open spec fn opt_text_cell(v: Option<String>) -> Cell {
    match v {
        Some(s) => Cell::Text(s@),
        None => Cell::Null,
    }
}

/// A copy of a byte vector.
pub fn copy_bytes(b: &Vec<u8>) -> (r: Vec<u8>)
    ensures
        r@ == b@,
{
    let mut r: Vec<u8> = Vec::new();
    let mut i: usize = 0;
    while i < b.len()
        invariant
            i <= b.len(),
            r@ == b@.take(i as int),
        decreases b.len() - i,
    {
        r.push(b[i]);
        i = i + 1;
        assert(r@ =~= b@.take(i as int));
    }
    assert(b@.take(i as int) =~= b@);
    r
}

impl Value {
    /// A value with the same content.
    pub fn copy(&self) -> (r: Value)
        ensures
            r@ == self@,
    {
        match self {
            Value::Null => Value::Null,
            Value::Int(i) => Value::Int(*i),
            Value::Bool(b) => Value::Bool(*b),
            Value::Text(s) => Value::Text(s.clone()),
            Value::Bytes(b) => Value::Bytes(copy_bytes(b)),
            Value::Time(t) => Value::Time(*t),
        }
    }

    /// The integer this value holds, if any.
    pub fn as_int(&self) -> (r: Option<i32>)
        ensures
            r == int_of(self@),
    {
        match self {
            Value::Int(i) => Some(*i),
            _ => None,
        }
    }

    /// The value of an optional integer column.
    pub fn from_opt_int(v: Option<i32>) -> (r: Value)
        ensures
            r@ == opt_int_cell(v),
    {
        match v {
            Some(i) => Value::Int(i),
            None => Value::Null,
        }
    }

    /// The value of an optional boolean column.
    pub fn from_opt_bool(v: Option<bool>) -> (r: Value)
        ensures
            r@ == opt_bool_cell(v),
    {
        match v {
            Some(b) => Value::Bool(b),
            None => Value::Null,
        }
    }

    /// The value of an optional text column.
    pub fn from_opt_text(v: Option<String>) -> (r: Value)
        ensures
            r@ == opt_text_cell(v),
    {
        match v {
            Some(s) => Value::Text(s),
            None => Value::Null,
        }
    }
}

impl Row {
    /// The primary key, if the row has been stored.
    pub fn key(&self) -> (r: Option<i32>)
        ensures
            r == key_of(self@),
    {
        if self.values.len() > 0 {
            self.values[0].as_int()
        } else {
            None
        }
    }

    /// The integer at column `c`, if that column holds one.
    pub fn int_at(&self, c: usize) -> (r: Option<i32>)
        ensures
            r == int_at(self@, c as int),
    {
        if c < self.values.len() {
            self.values[c].as_int()
        } else {
            None
        }
    }

    /// A row with the same content.
    pub fn copy(&self) -> (r: Row)
        ensures
            r@ == self@,
    {
        let mut values: Vec<Value> = Vec::new();
        let mut i: usize = 0;
        while i < self.values.len()
            invariant
                i <= self.values.len(),
                values@.len() == i,
                forall|k: int| 0 <= k < i ==> #[trigger] values@[k]@ == self.values@[k]@,
            decreases self.values.len() - i,
        {
            values.push(self.values[i].copy());
            i = i + 1;
        }
        let r = Row { values };
        assert(r@ =~= self@);
        r
    }
}

} // verus!
