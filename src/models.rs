//! The entities of the application, each with its declaration, its
//! constructors and its conversion to and from stored rows.
use vstd::prelude::*;
use crate::row::{opt_bool_cell, opt_int_cell, opt_text_cell, Cell, Row, Timestamp, Value};
use crate::schema::{
    field_view, flag_field, foreign_field, plain_field, EntityBody, EntityDef, FieldDef, PolicyTag,
    ScalarType,
};

verus! {

/// The policies of an entity owned by its creator: create, the given read
/// policy, update and delete.
pub open spec fn owner_policies(read: PolicyTag) -> Seq<PolicyTag> {
    seq![PolicyTag::CreateAsOwner, read, PolicyTag::UpdateIfOwner, PolicyTag::DeleteIfOwner]
}

fn owned_policies(read: PolicyTag) -> (r: Vec<PolicyTag>)
    ensures
        r@ == owner_policies(read),
{
    let mut r: Vec<PolicyTag> = Vec::new();
    r.push(PolicyTag::CreateAsOwner);
    r.push(read);
    r.push(PolicyTag::UpdateIfOwner);
    r.push(PolicyTag::DeleteIfOwner);
    assert(r@ =~= owner_policies(read));
    r
}

/// A registered account.
#[derive(Clone, Debug)]
pub struct User {
    pub id: Option<i32>,
    pub username: String,
    pub email: String,
    pub real_name: Option<String>,
    pub visibility: Option<bool>,
    pub verified: Option<bool>,
    pub created_at: Timestamp,
    pub last_login: Timestamp,
}

impl User {
    /// The declaration of this entity: name, table, fields and policies.
    pub open spec fn is_definition(r: EntityDef) -> bool {
        &&& r.name@ == "User"@
        &&& r.table is None
        &&& r.body matches EntityBody::Named(fs) && fs@.len() == 7 && {
            &&& field_view(fs@[0]) == plain_field("username"@, ScalarType::Text, false)
            &&& field_view(fs@[1]) == plain_field("email"@, ScalarType::Text, false)
            &&& field_view(fs@[2]) == plain_field("real_name"@, ScalarType::Text, true)
            &&& field_view(fs@[3]) == flag_field("visibility"@)
            &&& field_view(fs@[4]) == plain_field("verified"@, ScalarType::Bool, true)
            &&& field_view(fs@[5]) == plain_field("created_at"@, ScalarType::Timestamp, false)
            &&& field_view(fs@[6]) == plain_field("last_login"@, ScalarType::Timestamp, false)
        }
        &&& r.policies@.len() == 0
    }

    /// The declaration this entity is compiled from.
    pub fn definition() -> (r: EntityDef)
        ensures
            Self::is_definition(r),
    {
        let mut fields: Vec<FieldDef> = Vec::new();
        fields.push(FieldDef::plain("username", ScalarType::Text, false));
        fields.push(FieldDef::plain("email", ScalarType::Text, false));
        fields.push(FieldDef::plain("real_name", ScalarType::Text, true));
        fields.push(FieldDef::visibility_flag("visibility"));
        fields.push(FieldDef::plain("verified", ScalarType::Bool, true));
        fields.push(FieldDef::plain("created_at", ScalarType::Timestamp, false));
        fields.push(FieldDef::plain("last_login", ScalarType::Timestamp, false));
        let policies: Vec<PolicyTag> = Vec::new();
        let r = EntityDef {
            name: String::from_str("User"),
            table: None,
            body: EntityBody::Named(fields),
            policies,
        };
        r
    }

    /// A row not stored yet, from a value for each declared field.
    pub fn new(
        username: String,
        email: String,
        real_name: Option<String>,
        visibility: Option<bool>,
        verified: Option<bool>,
        created_at: Timestamp,
        last_login: Timestamp,
    ) -> (r: Self)
        ensures
            r == (User { id: None, username, email, real_name, visibility, verified, created_at, last_login }),
    {
        User { id: None, username, email, real_name, visibility, verified, created_at, last_login }
    }

    /// The row this value is stored as.
    pub open spec fn row_view(&self) -> Seq<Cell> {
        seq![
            opt_int_cell(self.id),
            Cell::Text(self.username@),
            Cell::Text(self.email@),
            opt_text_cell(self.real_name),
            opt_bool_cell(self.visibility),
            opt_bool_cell(self.verified),
            Cell::Time(self.created_at),
            Cell::Time(self.last_login),
        ]
    }

    /// A row of this entity's shape.
    pub open spec fn fits(row: Seq<Cell>) -> bool {
        &&& row.len() == 8
        &&& (row[0] is Null || row[0] is Int)
        &&& row[1] is Text
        &&& row[2] is Text
        &&& (row[3] is Null || row[3] is Text)
        &&& (row[4] is Null || row[4] is Bool)
        &&& (row[5] is Null || row[5] is Bool)
        &&& row[6] is Time
        &&& row[7] is Time
    }

    /// The row this value is stored as.
    pub fn into_row(self) -> (r: Row)
        ensures
            r@ == self.row_view(),
    {
        let ghost v = self;
        let mut values: Vec<Value> = Vec::new();
        values.push(Value::from_opt_int(self.id));
        values.push(Value::Text(self.username));
        values.push(Value::Text(self.email));
        values.push(Value::from_opt_text(self.real_name));
        values.push(Value::from_opt_bool(self.visibility));
        values.push(Value::from_opt_bool(self.verified));
        values.push(Value::Time(self.created_at));
        values.push(Value::Time(self.last_login));
        let r = Row { values };
        assert(r@ =~= v.row_view());
        r
    }

    /// The value a row of this entity's shape holds; absent for any other row.
    pub fn from_row(row: Row) -> (r: Option<Self>)
        ensures
            match r {
                Some(m) => Self::fits(row@) && m.row_view() == row@,
                None => !Self::fits(row@),
            },
    {
        let ghost cells = row@;
        let mut values = row.values;
        if values.len() != 8 {
            return None;
        }
        let last_login = match values.pop() {
            Some(Value::Time(v)) => v,
            _ => return None,
        };
        let created_at = match values.pop() {
            Some(Value::Time(v)) => v,
            _ => return None,
        };
        let verified = match values.pop() {
            Some(Value::Null) => None,
            Some(Value::Bool(v)) => Some(v),
            _ => return None,
        };
        let visibility = match values.pop() {
            Some(Value::Null) => None,
            Some(Value::Bool(v)) => Some(v),
            _ => return None,
        };
        let real_name = match values.pop() {
            Some(Value::Null) => None,
            Some(Value::Text(v)) => Some(v),
            _ => return None,
        };
        let email = match values.pop() {
            Some(Value::Text(v)) => v,
            _ => return None,
        };
        let username = match values.pop() {
            Some(Value::Text(v)) => v,
            _ => return None,
        };
        let id = match values.pop() {
            Some(Value::Null) => None,
            Some(Value::Int(v)) => Some(v),
            _ => return None,
        };
        let m = User { id, username, email, real_name, visibility, verified, created_at, last_login };
        assert(m.row_view() =~= cells);
        Some(m)
    }
}

/// The password hash of a user.
#[derive(Clone, Debug)]
pub struct Credentials {
    pub id: Option<i32>,
    pub user_id: i32,
    pub password: String,
}

impl Credentials {
    /// The declaration of this entity: name, table, fields and policies.
    pub open spec fn is_definition(r: EntityDef) -> bool {
        &&& r.name@ == "Credentials"@
        &&& r.table matches Some(t) && t@ == "credentials"@
        &&& r.body matches EntityBody::Named(fs) && fs@.len() == 2 && {
            &&& field_view(fs@[0]) == foreign_field("user_id"@, "User"@, None, false)
            &&& field_view(fs@[1]) == plain_field("password"@, ScalarType::Text, false)
        }
        &&& r.policies@.len() == 0
    }

    /// The declaration this entity is compiled from.
    pub fn definition() -> (r: EntityDef)
        ensures
            Self::is_definition(r),
    {
        let mut fields: Vec<FieldDef> = Vec::new();
        fields.push(FieldDef::foreign("user_id", "User", None));
        fields.push(FieldDef::plain("password", ScalarType::Text, false));
        let policies: Vec<PolicyTag> = Vec::new();
        let r = EntityDef {
            name: String::from_str("Credentials"),
            table: Some(String::from_str("credentials")),
            body: EntityBody::Named(fields),
            policies,
        };
        r
    }

    /// A row not stored yet, from a value for each declared field.
    pub fn new(user_id: i32, password: String) -> (r: Self)
        ensures
            r == (Credentials { id: None, user_id, password }),
    {
        Credentials { id: None, user_id, password }
    }

    /// A row not stored yet that refers to the given related rows. Absent
    /// when one of them has not been stored, so has no id to refer to.
    pub fn new_from(user: &User, password: String) -> (r: Option<Self>)
        ensures
            r == (if user.id is Some {
                Some(Credentials { id: None, user_id: user.id->0, password })
            } else {
                None
            }),
    {
        if user.id.is_none() {
            return None;
        }
        Some(Credentials { id: None, user_id: user.id.unwrap(), password })
    }

    /// The row this value is stored as.
    pub open spec fn row_view(&self) -> Seq<Cell> {
        seq![
            opt_int_cell(self.id),
            Cell::Int(self.user_id),
            Cell::Text(self.password@),
        ]
    }

    /// A row of this entity's shape.
    pub open spec fn fits(row: Seq<Cell>) -> bool {
        &&& row.len() == 3
        &&& (row[0] is Null || row[0] is Int)
        &&& row[1] is Int
        &&& row[2] is Text
    }

    /// The row this value is stored as.
    pub fn into_row(self) -> (r: Row)
        ensures
            r@ == self.row_view(),
    {
        let ghost v = self;
        let mut values: Vec<Value> = Vec::new();
        values.push(Value::from_opt_int(self.id));
        values.push(Value::Int(self.user_id));
        values.push(Value::Text(self.password));
        let r = Row { values };
        assert(r@ =~= v.row_view());
        r
    }

    /// The value a row of this entity's shape holds; absent for any other row.
    pub fn from_row(row: Row) -> (r: Option<Self>)
        ensures
            match r {
                Some(m) => Self::fits(row@) && m.row_view() == row@,
                None => !Self::fits(row@),
            },
    {
        let ghost cells = row@;
        let mut values = row.values;
        if values.len() != 3 {
            return None;
        }
        let password = match values.pop() {
            Some(Value::Text(v)) => v,
            _ => return None,
        };
        let user_id = match values.pop() {
            Some(Value::Int(v)) => v,
            _ => return None,
        };
        let id = match values.pop() {
            Some(Value::Null) => None,
            Some(Value::Int(v)) => Some(v),
            _ => return None,
        };
        let m = Credentials { id, user_id, password };
        assert(m.row_view() =~= cells);
        Some(m)
    }
}

/// A course: a named collection of decks.
#[derive(Clone, Debug)]
pub struct Course {
    pub id: Option<i32>,
    pub user_id: i32,
    pub visibility: Option<bool>,
    pub name: String,
    pub image: Vec<u8>,
}

impl Course {
    /// The declaration of this entity: name, table, fields and policies.
    pub open spec fn is_definition(r: EntityDef) -> bool {
        &&& r.name@ == "Course"@
        &&& r.table is None
        &&& r.body matches EntityBody::Named(fs) && fs@.len() == 4 && {
            &&& field_view(fs@[0]) == foreign_field("user_id"@, "User"@, None, true)
            &&& field_view(fs@[1]) == flag_field("visibility"@)
            &&& field_view(fs@[2]) == plain_field("name"@, ScalarType::Text, false)
            &&& field_view(fs@[3]) == plain_field("image"@, ScalarType::Bytes, false)
        }
        &&& r.policies@ == owner_policies(PolicyTag::ReadIfVisible)
    }

    /// The declaration this entity is compiled from.
    pub fn definition() -> (r: EntityDef)
        ensures
            Self::is_definition(r),
    {
        let mut fields: Vec<FieldDef> = Vec::new();
        fields.push(FieldDef::foreign("user_id", "User", None).owned());
        fields.push(FieldDef::visibility_flag("visibility"));
        fields.push(FieldDef::plain("name", ScalarType::Text, false));
        fields.push(FieldDef::plain("image", ScalarType::Bytes, false));
        let policies = owned_policies(PolicyTag::ReadIfVisible);
        let r = EntityDef {
            name: String::from_str("Course"),
            table: None,
            body: EntityBody::Named(fields),
            policies,
        };
        r
    }

    /// A row not stored yet, from a value for each declared field.
    pub fn new(
        user_id: i32,
        visibility: Option<bool>,
        name: String,
        image: Vec<u8>,
    ) -> (r: Self)
        ensures
            r == (Course { id: None, user_id, visibility, name, image }),
    {
        Course { id: None, user_id, visibility, name, image }
    }

    /// A row not stored yet that refers to the given related rows. Absent
    /// when one of them has not been stored, so has no id to refer to.
    pub fn new_from(user: &User, visibility: Option<bool>, name: String, image: Vec<u8>) -> (r: Option<Self>)
        ensures
            r == (if user.id is Some {
                Some(Course { id: None, user_id: user.id->0, visibility, name, image })
            } else {
                None
            }),
    {
        if user.id.is_none() {
            return None;
        }
        Some(Course { id: None, user_id: user.id.unwrap(), visibility, name, image })
    }

    /// The row this value is stored as.
    pub open spec fn row_view(&self) -> Seq<Cell> {
        seq![
            opt_int_cell(self.id),
            Cell::Int(self.user_id),
            opt_bool_cell(self.visibility),
            Cell::Text(self.name@),
            Cell::Bytes(self.image@),
        ]
    }

    /// A row of this entity's shape.
    pub open spec fn fits(row: Seq<Cell>) -> bool {
        &&& row.len() == 5
        &&& (row[0] is Null || row[0] is Int)
        &&& row[1] is Int
        &&& (row[2] is Null || row[2] is Bool)
        &&& row[3] is Text
        &&& row[4] is Bytes
    }

    /// The row this value is stored as.
    pub fn into_row(self) -> (r: Row)
        ensures
            r@ == self.row_view(),
    {
        let ghost v = self;
        let mut values: Vec<Value> = Vec::new();
        values.push(Value::from_opt_int(self.id));
        values.push(Value::Int(self.user_id));
        values.push(Value::from_opt_bool(self.visibility));
        values.push(Value::Text(self.name));
        values.push(Value::Bytes(self.image));
        let r = Row { values };
        assert(r@ =~= v.row_view());
        r
    }

    /// The value a row of this entity's shape holds; absent for any other row.
    pub fn from_row(row: Row) -> (r: Option<Self>)
        ensures
            match r {
                Some(m) => Self::fits(row@) && m.row_view() == row@,
                None => !Self::fits(row@),
            },
    {
        let ghost cells = row@;
        let mut values = row.values;
        if values.len() != 5 {
            return None;
        }
        let image = match values.pop() {
            Some(Value::Bytes(v)) => v,
            _ => return None,
        };
        let name = match values.pop() {
            Some(Value::Text(v)) => v,
            _ => return None,
        };
        let visibility = match values.pop() {
            Some(Value::Null) => None,
            Some(Value::Bool(v)) => Some(v),
            _ => return None,
        };
        let user_id = match values.pop() {
            Some(Value::Int(v)) => v,
            _ => return None,
        };
        let id = match values.pop() {
            Some(Value::Null) => None,
            Some(Value::Int(v)) => Some(v),
            _ => return None,
        };
        let m = Course { id, user_id, visibility, name, image };
        assert(m.row_view() =~= cells);
        Some(m)
    }
}

/// A deck of cards.
#[derive(Clone, Debug)]
pub struct Deck {
    pub id: Option<i32>,
    pub user_id: i32,
    pub visibility: Option<bool>,
    pub name: String,
    pub image: Vec<u8>,
}

impl Deck {
    /// The declaration of this entity: name, table, fields and policies.
    pub open spec fn is_definition(r: EntityDef) -> bool {
        &&& r.name@ == "Deck"@
        &&& r.table is None
        &&& r.body matches EntityBody::Named(fs) && fs@.len() == 4 && {
            &&& field_view(fs@[0]) == foreign_field("user_id"@, "User"@, None, true)
            &&& field_view(fs@[1]) == flag_field("visibility"@)
            &&& field_view(fs@[2]) == plain_field("name"@, ScalarType::Text, false)
            &&& field_view(fs@[3]) == plain_field("image"@, ScalarType::Bytes, false)
        }
        &&& r.policies@ == owner_policies(PolicyTag::ReadIfVisible)
    }

    /// The declaration this entity is compiled from.
    pub fn definition() -> (r: EntityDef)
        ensures
            Self::is_definition(r),
    {
        let mut fields: Vec<FieldDef> = Vec::new();
        fields.push(FieldDef::foreign("user_id", "User", None).owned());
        fields.push(FieldDef::visibility_flag("visibility"));
        fields.push(FieldDef::plain("name", ScalarType::Text, false));
        fields.push(FieldDef::plain("image", ScalarType::Bytes, false));
        let policies = owned_policies(PolicyTag::ReadIfVisible);
        let r = EntityDef {
            name: String::from_str("Deck"),
            table: None,
            body: EntityBody::Named(fields),
            policies,
        };
        r
    }

    /// A row not stored yet, from a value for each declared field.
    pub fn new(
        user_id: i32,
        visibility: Option<bool>,
        name: String,
        image: Vec<u8>,
    ) -> (r: Self)
        ensures
            r == (Deck { id: None, user_id, visibility, name, image }),
    {
        Deck { id: None, user_id, visibility, name, image }
    }

    /// A row not stored yet that refers to the given related rows. Absent
    /// when one of them has not been stored, so has no id to refer to.
    pub fn new_from(user: &User, visibility: Option<bool>, name: String, image: Vec<u8>) -> (r: Option<Self>)
        ensures
            r == (if user.id is Some {
                Some(Deck { id: None, user_id: user.id->0, visibility, name, image })
            } else {
                None
            }),
    {
        if user.id.is_none() {
            return None;
        }
        Some(Deck { id: None, user_id: user.id.unwrap(), visibility, name, image })
    }

    /// The row this value is stored as.
    pub open spec fn row_view(&self) -> Seq<Cell> {
        seq![
            opt_int_cell(self.id),
            Cell::Int(self.user_id),
            opt_bool_cell(self.visibility),
            Cell::Text(self.name@),
            Cell::Bytes(self.image@),
        ]
    }

    /// A row of this entity's shape.
    pub open spec fn fits(row: Seq<Cell>) -> bool {
        &&& row.len() == 5
        &&& (row[0] is Null || row[0] is Int)
        &&& row[1] is Int
        &&& (row[2] is Null || row[2] is Bool)
        &&& row[3] is Text
        &&& row[4] is Bytes
    }

    /// The row this value is stored as.
    pub fn into_row(self) -> (r: Row)
        ensures
            r@ == self.row_view(),
    {
        let ghost v = self;
        let mut values: Vec<Value> = Vec::new();
        values.push(Value::from_opt_int(self.id));
        values.push(Value::Int(self.user_id));
        values.push(Value::from_opt_bool(self.visibility));
        values.push(Value::Text(self.name));
        values.push(Value::Bytes(self.image));
        let r = Row { values };
        assert(r@ =~= v.row_view());
        r
    }

    /// The value a row of this entity's shape holds; absent for any other row.
    pub fn from_row(row: Row) -> (r: Option<Self>)
        ensures
            match r {
                Some(m) => Self::fits(row@) && m.row_view() == row@,
                None => !Self::fits(row@),
            },
    {
        let ghost cells = row@;
        let mut values = row.values;
        if values.len() != 5 {
            return None;
        }
        let image = match values.pop() {
            Some(Value::Bytes(v)) => v,
            _ => return None,
        };
        let name = match values.pop() {
            Some(Value::Text(v)) => v,
            _ => return None,
        };
        let visibility = match values.pop() {
            Some(Value::Null) => None,
            Some(Value::Bool(v)) => Some(v),
            _ => return None,
        };
        let user_id = match values.pop() {
            Some(Value::Int(v)) => v,
            _ => return None,
        };
        let id = match values.pop() {
            Some(Value::Null) => None,
            Some(Value::Int(v)) => Some(v),
            _ => return None,
        };
        let m = Deck { id, user_id, visibility, name, image };
        assert(m.row_view() =~= cells);
        Some(m)
    }
}

/// A card with a front and a back.
#[derive(Clone, Debug)]
pub struct Card {
    pub id: Option<i32>,
    pub user_id: i32,
    pub deck_id: i32,
    pub front: Vec<u8>,
    pub back: Vec<u8>,
}

impl Card {
    /// The declaration of this entity: name, table, fields and policies.
    pub open spec fn is_definition(r: EntityDef) -> bool {
        &&& r.name@ == "Card"@
        &&& r.table is None
        &&& r.body matches EntityBody::Named(fs) && fs@.len() == 4 && {
            &&& field_view(fs@[0]) == foreign_field("user_id"@, "User"@, None, true)
            &&& field_view(fs@[1]) == foreign_field("deck_id"@, "Deck"@, None, false)
            &&& field_view(fs@[2]) == plain_field("front"@, ScalarType::Bytes, false)
            &&& field_view(fs@[3]) == plain_field("back"@, ScalarType::Bytes, false)
        }
        &&& r.policies@ == owner_policies(PolicyTag::ReadIfOwner)
    }

    /// The declaration this entity is compiled from.
    pub fn definition() -> (r: EntityDef)
        ensures
            Self::is_definition(r),
    {
        let mut fields: Vec<FieldDef> = Vec::new();
        fields.push(FieldDef::foreign("user_id", "User", None).owned());
        fields.push(FieldDef::foreign("deck_id", "Deck", None));
        fields.push(FieldDef::plain("front", ScalarType::Bytes, false));
        fields.push(FieldDef::plain("back", ScalarType::Bytes, false));
        let policies = owned_policies(PolicyTag::ReadIfOwner);
        let r = EntityDef {
            name: String::from_str("Card"),
            table: None,
            body: EntityBody::Named(fields),
            policies,
        };
        r
    }

    /// A row not stored yet, from a value for each declared field.
    pub fn new(user_id: i32, deck_id: i32, front: Vec<u8>, back: Vec<u8>) -> (r: Self)
        ensures
            r == (Card { id: None, user_id, deck_id, front, back }),
    {
        Card { id: None, user_id, deck_id, front, back }
    }

    /// A row not stored yet that refers to the given related rows. Absent
    /// when one of them has not been stored, so has no id to refer to.
    pub fn new_from(user: &User, deck: &Deck, front: Vec<u8>, back: Vec<u8>) -> (r: Option<Self>)
        ensures
            r == (if user.id is Some && deck.id is Some {
                Some(Card { id: None, user_id: user.id->0, deck_id: deck.id->0, front, back })
            } else {
                None
            }),
    {
        if user.id.is_none() {
            return None;
        }
        if deck.id.is_none() {
            return None;
        }
        Some(Card { id: None, user_id: user.id.unwrap(), deck_id: deck.id.unwrap(), front, back })
    }

    /// The row this value is stored as.
    pub open spec fn row_view(&self) -> Seq<Cell> {
        seq![
            opt_int_cell(self.id),
            Cell::Int(self.user_id),
            Cell::Int(self.deck_id),
            Cell::Bytes(self.front@),
            Cell::Bytes(self.back@),
        ]
    }

    /// A row of this entity's shape.
    pub open spec fn fits(row: Seq<Cell>) -> bool {
        &&& row.len() == 5
        &&& (row[0] is Null || row[0] is Int)
        &&& row[1] is Int
        &&& row[2] is Int
        &&& row[3] is Bytes
        &&& row[4] is Bytes
    }

    /// The row this value is stored as.
    pub fn into_row(self) -> (r: Row)
        ensures
            r@ == self.row_view(),
    {
        let ghost v = self;
        let mut values: Vec<Value> = Vec::new();
        values.push(Value::from_opt_int(self.id));
        values.push(Value::Int(self.user_id));
        values.push(Value::Int(self.deck_id));
        values.push(Value::Bytes(self.front));
        values.push(Value::Bytes(self.back));
        let r = Row { values };
        assert(r@ =~= v.row_view());
        r
    }

    /// The value a row of this entity's shape holds; absent for any other row.
    pub fn from_row(row: Row) -> (r: Option<Self>)
        ensures
            match r {
                Some(m) => Self::fits(row@) && m.row_view() == row@,
                None => !Self::fits(row@),
            },
    {
        let ghost cells = row@;
        let mut values = row.values;
        if values.len() != 5 {
            return None;
        }
        let back = match values.pop() {
            Some(Value::Bytes(v)) => v,
            _ => return None,
        };
        let front = match values.pop() {
            Some(Value::Bytes(v)) => v,
            _ => return None,
        };
        let deck_id = match values.pop() {
            Some(Value::Int(v)) => v,
            _ => return None,
        };
        let user_id = match values.pop() {
            Some(Value::Int(v)) => v,
            _ => return None,
        };
        let id = match values.pop() {
            Some(Value::Null) => None,
            Some(Value::Int(v)) => Some(v),
            _ => return None,
        };
        let m = Card { id, user_id, deck_id, front, back };
        assert(m.row_view() =~= cells);
        Some(m)
    }
}

/// One review of a card.
#[derive(Clone, Debug)]
pub struct History {
    pub id: Option<i32>,
    pub user_id: i32,
    pub card_id: i32,
    pub ts: Timestamp,
    pub num_confident: i32,
    pub num_correct: i32,
    pub num_wrong: i32,
}

impl History {
    /// The declaration of this entity: name, table, fields and policies.
    pub open spec fn is_definition(r: EntityDef) -> bool {
        &&& r.name@ == "History"@
        &&& r.table is None
        &&& r.body matches EntityBody::Named(fs) && fs@.len() == 6 && {
            &&& field_view(fs@[0]) == foreign_field("user_id"@, "User"@, None, true)
            &&& field_view(fs@[1]) == foreign_field("card_id"@, "Card"@, None, false)
            &&& field_view(fs@[2]) == plain_field("ts"@, ScalarType::Timestamp, false)
            &&& field_view(fs@[3]) == plain_field("num_confident"@, ScalarType::Int, false)
            &&& field_view(fs@[4]) == plain_field("num_correct"@, ScalarType::Int, false)
            &&& field_view(fs@[5]) == plain_field("num_wrong"@, ScalarType::Int, false)
        }
        &&& r.policies@ == owner_policies(PolicyTag::ReadIfOwner)
    }

    /// The declaration this entity is compiled from.
    pub fn definition() -> (r: EntityDef)
        ensures
            Self::is_definition(r),
    {
        let mut fields: Vec<FieldDef> = Vec::new();
        fields.push(FieldDef::foreign("user_id", "User", None).owned());
        fields.push(FieldDef::foreign("card_id", "Card", None));
        fields.push(FieldDef::plain("ts", ScalarType::Timestamp, false));
        fields.push(FieldDef::plain("num_confident", ScalarType::Int, false));
        fields.push(FieldDef::plain("num_correct", ScalarType::Int, false));
        fields.push(FieldDef::plain("num_wrong", ScalarType::Int, false));
        let policies = owned_policies(PolicyTag::ReadIfOwner);
        let r = EntityDef {
            name: String::from_str("History"),
            table: None,
            body: EntityBody::Named(fields),
            policies,
        };
        r
    }

    /// A row not stored yet, from a value for each declared field.
    pub fn new(
        user_id: i32,
        card_id: i32,
        ts: Timestamp,
        num_confident: i32,
        num_correct: i32,
        num_wrong: i32,
    ) -> (r: Self)
        ensures
            r == (History { id: None, user_id, card_id, ts, num_confident, num_correct, num_wrong }),
    {
        History { id: None, user_id, card_id, ts, num_confident, num_correct, num_wrong }
    }

    /// A row not stored yet that refers to the given related rows. Absent
    /// when one of them has not been stored, so has no id to refer to.
    pub fn new_from(user: &User, card: &Card, ts: Timestamp, num_confident: i32, num_correct: i32, num_wrong: i32) -> (r: Option<Self>)
        ensures
            r == (if user.id is Some && card.id is Some {
                Some(History { id: None, user_id: user.id->0, card_id: card.id->0, ts, num_confident, num_correct, num_wrong })
            } else {
                None
            }),
    {
        if user.id.is_none() {
            return None;
        }
        if card.id.is_none() {
            return None;
        }
        Some(History { id: None, user_id: user.id.unwrap(), card_id: card.id.unwrap(), ts, num_confident, num_correct, num_wrong })
    }

    /// The row this value is stored as.
    pub open spec fn row_view(&self) -> Seq<Cell> {
        seq![
            opt_int_cell(self.id),
            Cell::Int(self.user_id),
            Cell::Int(self.card_id),
            Cell::Time(self.ts),
            Cell::Int(self.num_confident),
            Cell::Int(self.num_correct),
            Cell::Int(self.num_wrong),
        ]
    }

    /// A row of this entity's shape.
    pub open spec fn fits(row: Seq<Cell>) -> bool {
        &&& row.len() == 7
        &&& (row[0] is Null || row[0] is Int)
        &&& row[1] is Int
        &&& row[2] is Int
        &&& row[3] is Time
        &&& row[4] is Int
        &&& row[5] is Int
        &&& row[6] is Int
    }

    /// The row this value is stored as.
    pub fn into_row(self) -> (r: Row)
        ensures
            r@ == self.row_view(),
    {
        let ghost v = self;
        let mut values: Vec<Value> = Vec::new();
        values.push(Value::from_opt_int(self.id));
        values.push(Value::Int(self.user_id));
        values.push(Value::Int(self.card_id));
        values.push(Value::Time(self.ts));
        values.push(Value::Int(self.num_confident));
        values.push(Value::Int(self.num_correct));
        values.push(Value::Int(self.num_wrong));
        let r = Row { values };
        assert(r@ =~= v.row_view());
        r
    }

    /// The value a row of this entity's shape holds; absent for any other row.
    pub fn from_row(row: Row) -> (r: Option<Self>)
        ensures
            match r {
                Some(m) => Self::fits(row@) && m.row_view() == row@,
                None => !Self::fits(row@),
            },
    {
        let ghost cells = row@;
        let mut values = row.values;
        if values.len() != 7 {
            return None;
        }
        let num_wrong = match values.pop() {
            Some(Value::Int(v)) => v,
            _ => return None,
        };
        let num_correct = match values.pop() {
            Some(Value::Int(v)) => v,
            _ => return None,
        };
        let num_confident = match values.pop() {
            Some(Value::Int(v)) => v,
            _ => return None,
        };
        let ts = match values.pop() {
            Some(Value::Time(v)) => v,
            _ => return None,
        };
        let card_id = match values.pop() {
            Some(Value::Int(v)) => v,
            _ => return None,
        };
        let user_id = match values.pop() {
            Some(Value::Int(v)) => v,
            _ => return None,
        };
        let id = match values.pop() {
            Some(Value::Null) => None,
            Some(Value::Int(v)) => Some(v),
            _ => return None,
        };
        let m = History { id, user_id, card_id, ts, num_confident, num_correct, num_wrong };
        assert(m.row_view() =~= cells);
        Some(m)
    }
}

/// The settings of a user.
#[derive(Clone, Debug)]
pub struct Settings {
    pub id: Option<i32>,
    pub user_id: i32,
    pub public_profile: Option<bool>,
    pub avatar: Vec<u8>,
}

impl Settings {
    /// The declaration of this entity: name, table, fields and policies.
    pub open spec fn is_definition(r: EntityDef) -> bool {
        &&& r.name@ == "Settings"@
        &&& r.table is None
        &&& r.body matches EntityBody::Named(fs) && fs@.len() == 3 && {
            &&& field_view(fs@[0]) == foreign_field("user_id"@, "User"@, None, true)
            &&& field_view(fs@[1]) == plain_field("public_profile"@, ScalarType::Bool, true)
            &&& field_view(fs@[2]) == plain_field("avatar"@, ScalarType::Bytes, false)
        }
        &&& r.policies@ == owner_policies(PolicyTag::ReadIfOwner)
    }

    /// The declaration this entity is compiled from.
    pub fn definition() -> (r: EntityDef)
        ensures
            Self::is_definition(r),
    {
        let mut fields: Vec<FieldDef> = Vec::new();
        fields.push(FieldDef::foreign("user_id", "User", None).owned());
        fields.push(FieldDef::plain("public_profile", ScalarType::Bool, true));
        fields.push(FieldDef::plain("avatar", ScalarType::Bytes, false));
        let policies = owned_policies(PolicyTag::ReadIfOwner);
        let r = EntityDef {
            name: String::from_str("Settings"),
            table: None,
            body: EntityBody::Named(fields),
            policies,
        };
        r
    }

    /// A row not stored yet, from a value for each declared field.
    pub fn new(user_id: i32, public_profile: Option<bool>, avatar: Vec<u8>) -> (r: Self)
        ensures
            r == (Settings { id: None, user_id, public_profile, avatar }),
    {
        Settings { id: None, user_id, public_profile, avatar }
    }

    /// A row not stored yet that refers to the given related rows. Absent
    /// when one of them has not been stored, so has no id to refer to.
    pub fn new_from(user: &User, public_profile: Option<bool>, avatar: Vec<u8>) -> (r: Option<Self>)
        ensures
            r == (if user.id is Some {
                Some(Settings { id: None, user_id: user.id->0, public_profile, avatar })
            } else {
                None
            }),
    {
        if user.id.is_none() {
            return None;
        }
        Some(Settings { id: None, user_id: user.id.unwrap(), public_profile, avatar })
    }

    /// The row this value is stored as.
    pub open spec fn row_view(&self) -> Seq<Cell> {
        seq![
            opt_int_cell(self.id),
            Cell::Int(self.user_id),
            opt_bool_cell(self.public_profile),
            Cell::Bytes(self.avatar@),
        ]
    }

    /// A row of this entity's shape.
    pub open spec fn fits(row: Seq<Cell>) -> bool {
        &&& row.len() == 4
        &&& (row[0] is Null || row[0] is Int)
        &&& row[1] is Int
        &&& (row[2] is Null || row[2] is Bool)
        &&& row[3] is Bytes
    }

    /// The row this value is stored as.
    pub fn into_row(self) -> (r: Row)
        ensures
            r@ == self.row_view(),
    {
        let ghost v = self;
        let mut values: Vec<Value> = Vec::new();
        values.push(Value::from_opt_int(self.id));
        values.push(Value::Int(self.user_id));
        values.push(Value::from_opt_bool(self.public_profile));
        values.push(Value::Bytes(self.avatar));
        let r = Row { values };
        assert(r@ =~= v.row_view());
        r
    }

    /// The value a row of this entity's shape holds; absent for any other row.
    pub fn from_row(row: Row) -> (r: Option<Self>)
        ensures
            match r {
                Some(m) => Self::fits(row@) && m.row_view() == row@,
                None => !Self::fits(row@),
            },
    {
        let ghost cells = row@;
        let mut values = row.values;
        if values.len() != 4 {
            return None;
        }
        let avatar = match values.pop() {
            Some(Value::Bytes(v)) => v,
            _ => return None,
        };
        let public_profile = match values.pop() {
            Some(Value::Null) => None,
            Some(Value::Bool(v)) => Some(v),
            _ => return None,
        };
        let user_id = match values.pop() {
            Some(Value::Int(v)) => v,
            _ => return None,
        };
        let id = match values.pop() {
            Some(Value::Null) => None,
            Some(Value::Int(v)) => Some(v),
            _ => return None,
        };
        let m = Settings { id, user_id, public_profile, avatar };
        assert(m.row_view() =~= cells);
        Some(m)
    }
}

/// A message for a user.
#[derive(Clone, Debug)]
pub struct Notification {
    pub id: Option<i32>,
    pub user_id: i32,
    pub ts: Timestamp,
    pub message: String,
    pub icon: Vec<u8>,
}

impl Notification {
    /// The declaration of this entity: name, table, fields and policies.
    pub open spec fn is_definition(r: EntityDef) -> bool {
        &&& r.name@ == "Notification"@
        &&& r.table is None
        &&& r.body matches EntityBody::Named(fs) && fs@.len() == 4 && {
            &&& field_view(fs@[0]) == foreign_field("user_id"@, "User"@, None, true)
            &&& field_view(fs@[1]) == plain_field("ts"@, ScalarType::Timestamp, false)
            &&& field_view(fs@[2]) == plain_field("message"@, ScalarType::Text, false)
            &&& field_view(fs@[3]) == plain_field("icon"@, ScalarType::Bytes, false)
        }
        &&& r.policies@ == owner_policies(PolicyTag::ReadIfOwner)
    }

    /// The declaration this entity is compiled from.
    pub fn definition() -> (r: EntityDef)
        ensures
            Self::is_definition(r),
    {
        let mut fields: Vec<FieldDef> = Vec::new();
        fields.push(FieldDef::foreign("user_id", "User", None).owned());
        fields.push(FieldDef::plain("ts", ScalarType::Timestamp, false));
        fields.push(FieldDef::plain("message", ScalarType::Text, false));
        fields.push(FieldDef::plain("icon", ScalarType::Bytes, false));
        let policies = owned_policies(PolicyTag::ReadIfOwner);
        let r = EntityDef {
            name: String::from_str("Notification"),
            table: None,
            body: EntityBody::Named(fields),
            policies,
        };
        r
    }

    /// A row not stored yet, from a value for each declared field.
    pub fn new(user_id: i32, ts: Timestamp, message: String, icon: Vec<u8>) -> (r: Self)
        ensures
            r == (Notification { id: None, user_id, ts, message, icon }),
    {
        Notification { id: None, user_id, ts, message, icon }
    }

    /// A row not stored yet that refers to the given related rows. Absent
    /// when one of them has not been stored, so has no id to refer to.
    pub fn new_from(user: &User, ts: Timestamp, message: String, icon: Vec<u8>) -> (r: Option<Self>)
        ensures
            r == (if user.id is Some {
                Some(Notification { id: None, user_id: user.id->0, ts, message, icon })
            } else {
                None
            }),
    {
        if user.id.is_none() {
            return None;
        }
        Some(Notification { id: None, user_id: user.id.unwrap(), ts, message, icon })
    }

    /// The row this value is stored as.
    pub open spec fn row_view(&self) -> Seq<Cell> {
        seq![
            opt_int_cell(self.id),
            Cell::Int(self.user_id),
            Cell::Time(self.ts),
            Cell::Text(self.message@),
            Cell::Bytes(self.icon@),
        ]
    }

    /// A row of this entity's shape.
    pub open spec fn fits(row: Seq<Cell>) -> bool {
        &&& row.len() == 5
        &&& (row[0] is Null || row[0] is Int)
        &&& row[1] is Int
        &&& row[2] is Time
        &&& row[3] is Text
        &&& row[4] is Bytes
    }

    /// The row this value is stored as.
    pub fn into_row(self) -> (r: Row)
        ensures
            r@ == self.row_view(),
    {
        let ghost v = self;
        let mut values: Vec<Value> = Vec::new();
        values.push(Value::from_opt_int(self.id));
        values.push(Value::Int(self.user_id));
        values.push(Value::Time(self.ts));
        values.push(Value::Text(self.message));
        values.push(Value::Bytes(self.icon));
        let r = Row { values };
        assert(r@ =~= v.row_view());
        r
    }

    /// The value a row of this entity's shape holds; absent for any other row.
    pub fn from_row(row: Row) -> (r: Option<Self>)
        ensures
            match r {
                Some(m) => Self::fits(row@) && m.row_view() == row@,
                None => !Self::fits(row@),
            },
    {
        let ghost cells = row@;
        let mut values = row.values;
        if values.len() != 5 {
            return None;
        }
        let icon = match values.pop() {
            Some(Value::Bytes(v)) => v,
            _ => return None,
        };
        let message = match values.pop() {
            Some(Value::Text(v)) => v,
            _ => return None,
        };
        let ts = match values.pop() {
            Some(Value::Time(v)) => v,
            _ => return None,
        };
        let user_id = match values.pop() {
            Some(Value::Int(v)) => v,
            _ => return None,
        };
        let id = match values.pop() {
            Some(Value::Null) => None,
            Some(Value::Int(v)) => Some(v),
            _ => return None,
        };
        let m = Notification { id, user_id, ts, message, icon };
        assert(m.row_view() =~= cells);
        Some(m)
    }
}

/// An add-on published by a user.
#[derive(Clone, Debug)]
pub struct Addon {
    pub id: Option<i32>,
    pub user_id: i32,
    pub visibility: Option<bool>,
    pub name: String,
    pub description: String,
    pub data: Vec<u8>,
}

impl Addon {
    /// The declaration of this entity: name, table, fields and policies.
    pub open spec fn is_definition(r: EntityDef) -> bool {
        &&& r.name@ == "Addon"@
        &&& r.table is None
        &&& r.body matches EntityBody::Named(fs) && fs@.len() == 5 && {
            &&& field_view(fs@[0]) == foreign_field("user_id"@, "User"@, None, true)
            &&& field_view(fs@[1]) == flag_field("visibility"@)
            &&& field_view(fs@[2]) == plain_field("name"@, ScalarType::Text, false)
            &&& field_view(fs@[3]) == plain_field("description"@, ScalarType::Text, false)
            &&& field_view(fs@[4]) == plain_field("data"@, ScalarType::Bytes, false)
        }
        &&& r.policies@ == owner_policies(PolicyTag::ReadIfVisible)
    }

    /// The declaration this entity is compiled from.
    pub fn definition() -> (r: EntityDef)
        ensures
            Self::is_definition(r),
    {
        let mut fields: Vec<FieldDef> = Vec::new();
        fields.push(FieldDef::foreign("user_id", "User", None).owned());
        fields.push(FieldDef::visibility_flag("visibility"));
        fields.push(FieldDef::plain("name", ScalarType::Text, false));
        fields.push(FieldDef::plain("description", ScalarType::Text, false));
        fields.push(FieldDef::plain("data", ScalarType::Bytes, false));
        let policies = owned_policies(PolicyTag::ReadIfVisible);
        let r = EntityDef {
            name: String::from_str("Addon"),
            table: None,
            body: EntityBody::Named(fields),
            policies,
        };
        r
    }

    /// A row not stored yet, from a value for each declared field.
    pub fn new(
        user_id: i32,
        visibility: Option<bool>,
        name: String,
        description: String,
        data: Vec<u8>,
    ) -> (r: Self)
        ensures
            r == (Addon { id: None, user_id, visibility, name, description, data }),
    {
        Addon { id: None, user_id, visibility, name, description, data }
    }

    /// A row not stored yet that refers to the given related rows. Absent
    /// when one of them has not been stored, so has no id to refer to.
    pub fn new_from(user: &User, visibility: Option<bool>, name: String, description: String, data: Vec<u8>) -> (r: Option<Self>)
        ensures
            r == (if user.id is Some {
                Some(Addon { id: None, user_id: user.id->0, visibility, name, description, data })
            } else {
                None
            }),
    {
        if user.id.is_none() {
            return None;
        }
        Some(Addon { id: None, user_id: user.id.unwrap(), visibility, name, description, data })
    }

    /// The row this value is stored as.
    pub open spec fn row_view(&self) -> Seq<Cell> {
        seq![
            opt_int_cell(self.id),
            Cell::Int(self.user_id),
            opt_bool_cell(self.visibility),
            Cell::Text(self.name@),
            Cell::Text(self.description@),
            Cell::Bytes(self.data@),
        ]
    }

    /// A row of this entity's shape.
    pub open spec fn fits(row: Seq<Cell>) -> bool {
        &&& row.len() == 6
        &&& (row[0] is Null || row[0] is Int)
        &&& row[1] is Int
        &&& (row[2] is Null || row[2] is Bool)
        &&& row[3] is Text
        &&& row[4] is Text
        &&& row[5] is Bytes
    }

    /// The row this value is stored as.
    pub fn into_row(self) -> (r: Row)
        ensures
            r@ == self.row_view(),
    {
        let ghost v = self;
        let mut values: Vec<Value> = Vec::new();
        values.push(Value::from_opt_int(self.id));
        values.push(Value::Int(self.user_id));
        values.push(Value::from_opt_bool(self.visibility));
        values.push(Value::Text(self.name));
        values.push(Value::Text(self.description));
        values.push(Value::Bytes(self.data));
        let r = Row { values };
        assert(r@ =~= v.row_view());
        r
    }

    /// The value a row of this entity's shape holds; absent for any other row.
    pub fn from_row(row: Row) -> (r: Option<Self>)
        ensures
            match r {
                Some(m) => Self::fits(row@) && m.row_view() == row@,
                None => !Self::fits(row@),
            },
    {
        let ghost cells = row@;
        let mut values = row.values;
        if values.len() != 6 {
            return None;
        }
        let data = match values.pop() {
            Some(Value::Bytes(v)) => v,
            _ => return None,
        };
        let description = match values.pop() {
            Some(Value::Text(v)) => v,
            _ => return None,
        };
        let name = match values.pop() {
            Some(Value::Text(v)) => v,
            _ => return None,
        };
        let visibility = match values.pop() {
            Some(Value::Null) => None,
            Some(Value::Bool(v)) => Some(v),
            _ => return None,
        };
        let user_id = match values.pop() {
            Some(Value::Int(v)) => v,
            _ => return None,
        };
        let id = match values.pop() {
            Some(Value::Null) => None,
            Some(Value::Int(v)) => Some(v),
            _ => return None,
        };
        let m = Addon { id, user_id, visibility, name, description, data };
        assert(m.row_view() =~= cells);
        Some(m)
    }
}

/// A deck placed in a course.
#[derive(Clone, Debug)]
pub struct CourseDeck {
    pub id: Option<i32>,
    pub course_id: i32,
    pub deck_id: i32,
}

impl CourseDeck {
    /// The declaration of this entity: name, table, fields and policies.
    pub open spec fn is_definition(r: EntityDef) -> bool {
        &&& r.name@ == "CourseDeck"@
        &&& r.table is None
        &&& r.body matches EntityBody::Named(fs) && fs@.len() == 2 && {
            &&& field_view(fs@[0]) == foreign_field("course_id"@, "Course"@, None, false)
            &&& field_view(fs@[1]) == foreign_field("deck_id"@, "Deck"@, None, false)
        }
        &&& r.policies@.len() == 0
    }

    /// The declaration this entity is compiled from.
    pub fn definition() -> (r: EntityDef)
        ensures
            Self::is_definition(r),
    {
        let mut fields: Vec<FieldDef> = Vec::new();
        fields.push(FieldDef::foreign("course_id", "Course", None));
        fields.push(FieldDef::foreign("deck_id", "Deck", None));
        let policies: Vec<PolicyTag> = Vec::new();
        let r = EntityDef {
            name: String::from_str("CourseDeck"),
            table: None,
            body: EntityBody::Named(fields),
            policies,
        };
        r
    }

    /// A row not stored yet, from a value for each declared field.
    pub fn new(course_id: i32, deck_id: i32) -> (r: Self)
        ensures
            r == (CourseDeck { id: None, course_id, deck_id }),
    {
        CourseDeck { id: None, course_id, deck_id }
    }

    /// A row not stored yet that refers to the given related rows. Absent
    /// when one of them has not been stored, so has no id to refer to.
    pub fn new_from(course: &Course, deck: &Deck) -> (r: Option<Self>)
        ensures
            r == (if course.id is Some && deck.id is Some {
                Some(CourseDeck { id: None, course_id: course.id->0, deck_id: deck.id->0 })
            } else {
                None
            }),
    {
        if course.id.is_none() {
            return None;
        }
        if deck.id.is_none() {
            return None;
        }
        Some(CourseDeck { id: None, course_id: course.id.unwrap(), deck_id: deck.id.unwrap() })
    }

    /// The row this value is stored as.
    pub open spec fn row_view(&self) -> Seq<Cell> {
        seq![
            opt_int_cell(self.id),
            Cell::Int(self.course_id),
            Cell::Int(self.deck_id),
        ]
    }

    /// A row of this entity's shape.
    pub open spec fn fits(row: Seq<Cell>) -> bool {
        &&& row.len() == 3
        &&& (row[0] is Null || row[0] is Int)
        &&& row[1] is Int
        &&& row[2] is Int
    }

    /// The row this value is stored as.
    pub fn into_row(self) -> (r: Row)
        ensures
            r@ == self.row_view(),
    {
        let ghost v = self;
        let mut values: Vec<Value> = Vec::new();
        values.push(Value::from_opt_int(self.id));
        values.push(Value::Int(self.course_id));
        values.push(Value::Int(self.deck_id));
        let r = Row { values };
        assert(r@ =~= v.row_view());
        r
    }

    /// The value a row of this entity's shape holds; absent for any other row.
    pub fn from_row(row: Row) -> (r: Option<Self>)
        ensures
            match r {
                Some(m) => Self::fits(row@) && m.row_view() == row@,
                None => !Self::fits(row@),
            },
    {
        let ghost cells = row@;
        let mut values = row.values;
        if values.len() != 3 {
            return None;
        }
        let deck_id = match values.pop() {
            Some(Value::Int(v)) => v,
            _ => return None,
        };
        let course_id = match values.pop() {
            Some(Value::Int(v)) => v,
            _ => return None,
        };
        let id = match values.pop() {
            Some(Value::Null) => None,
            Some(Value::Int(v)) => Some(v),
            _ => return None,
        };
        let m = CourseDeck { id, course_id, deck_id };
        assert(m.row_view() =~= cells);
        Some(m)
    }
}

/// One user following another.
#[derive(Clone, Debug)]
pub struct Followers {
    pub id: Option<i32>,
    pub follower_id: i32,
    pub following_id: i32,
}

impl Followers {
    /// The declaration of this entity: name, table, fields and policies.
    pub open spec fn is_definition(r: EntityDef) -> bool {
        &&& r.name@ == "Followers"@
        &&& r.table is None
        &&& r.body matches EntityBody::Named(fs) && fs@.len() == 2 && {
            &&& field_view(fs@[0]) == foreign_field("follower_id"@, "User"@, Some("followers"@), false)
            &&& field_view(fs@[1]) == foreign_field("following_id"@, "User"@, Some("following"@), false)
        }
        &&& r.policies@.len() == 0
    }

    /// The declaration this entity is compiled from.
    pub fn definition() -> (r: EntityDef)
        ensures
            Self::is_definition(r),
    {
        let mut fields: Vec<FieldDef> = Vec::new();
        fields.push(FieldDef::foreign("follower_id", "User", Some("followers")));
        fields.push(FieldDef::foreign("following_id", "User", Some("following")));
        let policies: Vec<PolicyTag> = Vec::new();
        let r = EntityDef {
            name: String::from_str("Followers"),
            table: None,
            body: EntityBody::Named(fields),
            policies,
        };
        r
    }

    /// A row not stored yet, from a value for each declared field.
    pub fn new(follower_id: i32, following_id: i32) -> (r: Self)
        ensures
            r == (Followers { id: None, follower_id, following_id }),
    {
        Followers { id: None, follower_id, following_id }
    }

    /// A row not stored yet that refers to the given related rows. Absent
    /// when one of them has not been stored, so has no id to refer to.
    pub fn new_from(follower: &User, following: &User) -> (r: Option<Self>)
        ensures
            r == (if follower.id is Some && following.id is Some {
                Some(Followers { id: None, follower_id: follower.id->0, following_id: following.id->0 })
            } else {
                None
            }),
    {
        if follower.id.is_none() {
            return None;
        }
        if following.id.is_none() {
            return None;
        }
        Some(Followers { id: None, follower_id: follower.id.unwrap(), following_id: following.id.unwrap() })
    }

    /// The row this value is stored as.
    pub open spec fn row_view(&self) -> Seq<Cell> {
        seq![
            opt_int_cell(self.id),
            Cell::Int(self.follower_id),
            Cell::Int(self.following_id),
        ]
    }

    /// A row of this entity's shape.
    pub open spec fn fits(row: Seq<Cell>) -> bool {
        &&& row.len() == 3
        &&& (row[0] is Null || row[0] is Int)
        &&& row[1] is Int
        &&& row[2] is Int
    }

    /// The row this value is stored as.
    pub fn into_row(self) -> (r: Row)
        ensures
            r@ == self.row_view(),
    {
        let ghost v = self;
        let mut values: Vec<Value> = Vec::new();
        values.push(Value::from_opt_int(self.id));
        values.push(Value::Int(self.follower_id));
        values.push(Value::Int(self.following_id));
        let r = Row { values };
        assert(r@ =~= v.row_view());
        r
    }

    /// The value a row of this entity's shape holds; absent for any other row.
    pub fn from_row(row: Row) -> (r: Option<Self>)
        ensures
            match r {
                Some(m) => Self::fits(row@) && m.row_view() == row@,
                None => !Self::fits(row@),
            },
    {
        let ghost cells = row@;
        let mut values = row.values;
        if values.len() != 3 {
            return None;
        }
        let following_id = match values.pop() {
            Some(Value::Int(v)) => v,
            _ => return None,
        };
        let follower_id = match values.pop() {
            Some(Value::Int(v)) => v,
            _ => return None,
        };
        let id = match values.pop() {
            Some(Value::Null) => None,
            Some(Value::Int(v)) => Some(v),
            _ => return None,
        };
        let m = Followers { id, follower_id, following_id };
        assert(m.row_view() =~= cells);
        Some(m)
    }
}

/// A user subscribed to a course.
#[derive(Clone, Debug)]
pub struct CourseSubscription {
    pub id: Option<i32>,
    pub user_id: i32,
    pub course_id: i32,
}

impl CourseSubscription {
    /// The declaration of this entity: name, table, fields and policies.
    pub open spec fn is_definition(r: EntityDef) -> bool {
        &&& r.name@ == "CourseSubscription"@
        &&& r.table is None
        &&& r.body matches EntityBody::Named(fs) && fs@.len() == 2 && {
            &&& field_view(fs@[0]) == foreign_field("user_id"@, "User"@, None, false)
            &&& field_view(fs@[1]) == foreign_field("course_id"@, "Course"@, None, false)
        }
        &&& r.policies@.len() == 0
    }

    /// The declaration this entity is compiled from.
    pub fn definition() -> (r: EntityDef)
        ensures
            Self::is_definition(r),
    {
        let mut fields: Vec<FieldDef> = Vec::new();
        fields.push(FieldDef::foreign("user_id", "User", None));
        fields.push(FieldDef::foreign("course_id", "Course", None));
        let policies: Vec<PolicyTag> = Vec::new();
        let r = EntityDef {
            name: String::from_str("CourseSubscription"),
            table: None,
            body: EntityBody::Named(fields),
            policies,
        };
        r
    }

    /// A row not stored yet, from a value for each declared field.
    pub fn new(user_id: i32, course_id: i32) -> (r: Self)
        ensures
            r == (CourseSubscription { id: None, user_id, course_id }),
    {
        CourseSubscription { id: None, user_id, course_id }
    }

    /// A row not stored yet that refers to the given related rows. Absent
    /// when one of them has not been stored, so has no id to refer to.
    pub fn new_from(user: &User, course: &Course) -> (r: Option<Self>)
        ensures
            r == (if user.id is Some && course.id is Some {
                Some(CourseSubscription { id: None, user_id: user.id->0, course_id: course.id->0 })
            } else {
                None
            }),
    {
        if user.id.is_none() {
            return None;
        }
        if course.id.is_none() {
            return None;
        }
        Some(CourseSubscription { id: None, user_id: user.id.unwrap(), course_id: course.id.unwrap() })
    }

    /// The row this value is stored as.
    pub open spec fn row_view(&self) -> Seq<Cell> {
        seq![
            opt_int_cell(self.id),
            Cell::Int(self.user_id),
            Cell::Int(self.course_id),
        ]
    }

    /// A row of this entity's shape.
    pub open spec fn fits(row: Seq<Cell>) -> bool {
        &&& row.len() == 3
        &&& (row[0] is Null || row[0] is Int)
        &&& row[1] is Int
        &&& row[2] is Int
    }

    /// The row this value is stored as.
    pub fn into_row(self) -> (r: Row)
        ensures
            r@ == self.row_view(),
    {
        let ghost v = self;
        let mut values: Vec<Value> = Vec::new();
        values.push(Value::from_opt_int(self.id));
        values.push(Value::Int(self.user_id));
        values.push(Value::Int(self.course_id));
        let r = Row { values };
        assert(r@ =~= v.row_view());
        r
    }

    /// The value a row of this entity's shape holds; absent for any other row.
    pub fn from_row(row: Row) -> (r: Option<Self>)
        ensures
            match r {
                Some(m) => Self::fits(row@) && m.row_view() == row@,
                None => !Self::fits(row@),
            },
    {
        let ghost cells = row@;
        let mut values = row.values;
        if values.len() != 3 {
            return None;
        }
        let course_id = match values.pop() {
            Some(Value::Int(v)) => v,
            _ => return None,
        };
        let user_id = match values.pop() {
            Some(Value::Int(v)) => v,
            _ => return None,
        };
        let id = match values.pop() {
            Some(Value::Null) => None,
            Some(Value::Int(v)) => Some(v),
            _ => return None,
        };
        let m = CourseSubscription { id, user_id, course_id };
        assert(m.row_view() =~= cells);
        Some(m)
    }
}

/// A user subscribed to a deck.
#[derive(Clone, Debug)]
pub struct DeckSubscription {
    pub id: Option<i32>,
    pub user_id: i32,
    pub deck_id: i32,
}

impl DeckSubscription {
    /// The declaration of this entity: name, table, fields and policies.
    pub open spec fn is_definition(r: EntityDef) -> bool {
        &&& r.name@ == "DeckSubscription"@
        &&& r.table is None
        &&& r.body matches EntityBody::Named(fs) && fs@.len() == 2 && {
            &&& field_view(fs@[0]) == foreign_field("user_id"@, "User"@, None, false)
            &&& field_view(fs@[1]) == foreign_field("deck_id"@, "Deck"@, None, false)
        }
        &&& r.policies@.len() == 0
    }

    /// The declaration this entity is compiled from.
    pub fn definition() -> (r: EntityDef)
        ensures
            Self::is_definition(r),
    {
        let mut fields: Vec<FieldDef> = Vec::new();
        fields.push(FieldDef::foreign("user_id", "User", None));
        fields.push(FieldDef::foreign("deck_id", "Deck", None));
        let policies: Vec<PolicyTag> = Vec::new();
        let r = EntityDef {
            name: String::from_str("DeckSubscription"),
            table: None,
            body: EntityBody::Named(fields),
            policies,
        };
        r
    }

    /// A row not stored yet, from a value for each declared field.
    pub fn new(user_id: i32, deck_id: i32) -> (r: Self)
        ensures
            r == (DeckSubscription { id: None, user_id, deck_id }),
    {
        DeckSubscription { id: None, user_id, deck_id }
    }

    /// A row not stored yet that refers to the given related rows. Absent
    /// when one of them has not been stored, so has no id to refer to.
    pub fn new_from(user: &User, deck: &Deck) -> (r: Option<Self>)
        ensures
            r == (if user.id is Some && deck.id is Some {
                Some(DeckSubscription { id: None, user_id: user.id->0, deck_id: deck.id->0 })
            } else {
                None
            }),
    {
        if user.id.is_none() {
            return None;
        }
        if deck.id.is_none() {
            return None;
        }
        Some(DeckSubscription { id: None, user_id: user.id.unwrap(), deck_id: deck.id.unwrap() })
    }

    /// The row this value is stored as.
    pub open spec fn row_view(&self) -> Seq<Cell> {
        seq![
            opt_int_cell(self.id),
            Cell::Int(self.user_id),
            Cell::Int(self.deck_id),
        ]
    }

    /// A row of this entity's shape.
    pub open spec fn fits(row: Seq<Cell>) -> bool {
        &&& row.len() == 3
        &&& (row[0] is Null || row[0] is Int)
        &&& row[1] is Int
        &&& row[2] is Int
    }

    /// The row this value is stored as.
    pub fn into_row(self) -> (r: Row)
        ensures
            r@ == self.row_view(),
    {
        let ghost v = self;
        let mut values: Vec<Value> = Vec::new();
        values.push(Value::from_opt_int(self.id));
        values.push(Value::Int(self.user_id));
        values.push(Value::Int(self.deck_id));
        let r = Row { values };
        assert(r@ =~= v.row_view());
        r
    }

    /// The value a row of this entity's shape holds; absent for any other row.
    pub fn from_row(row: Row) -> (r: Option<Self>)
        ensures
            match r {
                Some(m) => Self::fits(row@) && m.row_view() == row@,
                None => !Self::fits(row@),
            },
    {
        let ghost cells = row@;
        let mut values = row.values;
        if values.len() != 3 {
            return None;
        }
        let deck_id = match values.pop() {
            Some(Value::Int(v)) => v,
            _ => return None,
        };
        let user_id = match values.pop() {
            Some(Value::Int(v)) => v,
            _ => return None,
        };
        let id = match values.pop() {
            Some(Value::Null) => None,
            Some(Value::Int(v)) => Some(v),
            _ => return None,
        };
        let m = DeckSubscription { id, user_id, deck_id };
        assert(m.row_view() =~= cells);
        Some(m)
    }
}

/// The declarations of all entities, in a fixed order.
pub fn declarations() -> (r: Vec<EntityDef>)
    ensures
        r@.len() == 13,
        User::is_definition(r@[0]),
        Credentials::is_definition(r@[1]),
        Course::is_definition(r@[2]),
        Deck::is_definition(r@[3]),
        Card::is_definition(r@[4]),
        History::is_definition(r@[5]),
        Settings::is_definition(r@[6]),
        Notification::is_definition(r@[7]),
        Addon::is_definition(r@[8]),
        CourseDeck::is_definition(r@[9]),
        Followers::is_definition(r@[10]),
        CourseSubscription::is_definition(r@[11]),
        DeckSubscription::is_definition(r@[12]),
{
    let mut r: Vec<EntityDef> = Vec::new();
    r.push(User::definition());
    r.push(Credentials::definition());
    r.push(Course::definition());
    r.push(Deck::definition());
    r.push(Card::definition());
    r.push(History::definition());
    r.push(Settings::definition());
    r.push(Notification::definition());
    r.push(Addon::definition());
    r.push(CourseDeck::definition());
    r.push(Followers::definition());
    r.push(CourseSubscription::definition());
    r.push(DeckSubscription::definition());
    r
}

} // verus!
