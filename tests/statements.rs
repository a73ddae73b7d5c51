use memra::models::{Course, User};
use memra::registry::build_registry;
use memra::row::{Row, Timestamp, Value};
use memra::schema::{
    build_descriptor, EntityBody, EntityDef, EntityDescriptor, FieldDef, PolicyTag, ScalarType,
};
use memra::sql::{delete, delete_owned, find_by_column, find_by_id, insert, update, update_owned};

fn course_descriptor() -> EntityDescriptor {
    build_descriptor(Course::definition()).unwrap()
}

fn course_row(id: Option<i32>, owner: i32, visibility: Option<bool>) -> Row {
    let mut c = Course::new(owner, visibility, "Rust".to_string(), vec![1, 2]);
    c.id = id;
    c.into_row()
}

fn int_value(v: &Value) -> i32 {
    match v {
        Value::Int(i) => *i,
        other => panic!("not an integer: {:?}", other),
    }
}

#[test]
fn descriptor_prepends_key_and_derives_table() {
    let d = course_descriptor();
    assert_eq!(d.table, "courses");
    assert_eq!(d.fields.len(), 5);
    assert_eq!(d.fields[0].name, "id");
    assert!(d.fields[0].nullable);
    assert_eq!(d.fields[1].name, "user_id");
    assert_eq!(d.owner, Some(1));
    assert_eq!(d.visibility, Some(2));
}

#[test]
fn explicit_table_is_kept() {
    let d = build_descriptor(memra::models::Credentials::definition()).unwrap();
    assert_eq!(d.table, "credentials");
}

#[test]
fn insert_binds_declared_fields_in_order() {
    let d = course_descriptor();
    let s = insert(&d);
    assert_eq!(
        s.text,
        "INSERT INTO courses (user_id,visibility,name,image) VALUES ($1,$2,$3,$4) RETURNING *"
    );
    assert_eq!(s.params, vec![1, 2, 3, 4]);
    let q = s.bind(&course_row(None, 7, Some(true)));
    assert_eq!(q.args.len(), 4);
    assert_eq!(int_value(&q.args[0]), 7);
    assert!(matches!(q.args[1], Value::Bool(true)));
    assert!(matches!(&q.args[2], Value::Text(t) if t == "Rust"));
    assert!(matches!(&q.args[3], Value::Bytes(b) if *b == vec![1u8, 2]));
}

#[test]
fn update_binds_fields_then_key_last() {
    let d = course_descriptor();
    let s = update(&d);
    assert_eq!(
        s.text,
        "UPDATE courses SET user_id = $1,visibility = $2,name = $3,image = $4 WHERE id = $5 RETURNING *"
    );
    assert_eq!(s.params, vec![1, 2, 3, 4, 0]);
    let q = s.bind(&course_row(Some(12), 7, None));
    assert_eq!(q.args.len(), 5);
    assert_eq!(int_value(&q.args[0]), 7);
    assert!(matches!(q.args[1], Value::Null));
    assert_eq!(int_value(&q.args[4]), 12);
}

#[test]
fn placeholders_past_nine_have_two_digits() {
    let mut fields = Vec::new();
    for i in 0..11 {
        fields.push(FieldDef::plain(&format!("c{}", i), ScalarType::Int, false));
    }
    let def = EntityDef {
        name: "Wide".to_string(),
        table: None,
        body: EntityBody::Named(fields),
        policies: vec![],
    };
    let d = build_descriptor(def).unwrap();
    let s = insert(&d);
    assert!(s.text.ends_with("VALUES ($1,$2,$3,$4,$5,$6,$7,$8,$9,$10,$11) RETURNING *"));
    let u = update(&d);
    assert!(u.text.contains("c10 = $11 WHERE id = $12"));
    assert_eq!(u.params.len(), 12);
}

#[test]
fn find_and_delete_statements() {
    let d = course_descriptor();
    let f = find_by_id(&d);
    assert_eq!(f.text, "SELECT * FROM courses WHERE id = $1");
    assert_eq!(f.params, vec![0]);
    let del = delete(&d);
    assert_eq!(del.text, "DELETE FROM courses WHERE id = $1");
    let q = del.bind_value(Value::Int(3));
    assert_eq!(q.args.len(), 1);
    assert_eq!(int_value(&q.args[0]), 3);
}

#[test]
fn find_by_column_accepts_only_known_columns() {
    let d = build_descriptor(User::definition()).unwrap();
    let s = find_by_column(&d, "username").unwrap();
    assert_eq!(s.text, "SELECT * FROM users WHERE username = $1");
    assert_eq!(s.filter, vec![1]);
    assert!(find_by_column(&d, "username; DROP TABLE users").is_none());
    assert!(find_by_column(&d, "password").is_none());
}

#[test]
fn all_declarations_compile_together() {
    let ds = build_registry(memra::models::declarations()).unwrap();
    assert_eq!(ds.len(), 13);
    assert_eq!(ds[0].table, "users");
}

#[test]
fn row_round_trip_through_typed_model() {
    let mut u = User::new(
        "ann".to_string(),
        "ann@example.org".to_string(),
        None,
        Some(true),
        Some(false),
        Timestamp { secs: 5, nanos: 6 },
        Timestamp { secs: 7, nanos: 8 },
    );
    u.id = Some(4);
    let row = u.into_row();
    assert_eq!(row.values.len(), 8);
    let back = User::from_row(row).unwrap();
    assert_eq!(back.id, Some(4));
    assert_eq!(back.username, "ann");
    assert_eq!(back.real_name, None);
    assert_eq!(back.last_login, Timestamp { secs: 7, nanos: 8 });
    let bad = Row { values: vec![Value::Int(1)] };
    assert!(User::from_row(bad).is_none());
    let wrong_type = course_row(Some(1), 2, None);
    assert!(User::from_row(wrong_type).is_none());
}

#[test]
fn policies_listed_in_definition() {
    let def = Course::definition();
    assert_eq!(
        def.policies,
        vec![
            PolicyTag::CreateAsOwner,
            PolicyTag::ReadIfVisible,
            PolicyTag::UpdateIfOwner,
            PolicyTag::DeleteIfOwner
        ]
    );
}

#[test]
fn owner_guarded_statements_check_key_and_owner() {
    let d = course_descriptor();
    let u = update_owned(&d);
    assert_eq!(
        u.text,
        "UPDATE courses SET user_id = $1,visibility = $2,name = $3,image = $4 WHERE id = $5 AND user_id = $6 RETURNING *"
    );
    assert_eq!(u.params, vec![1, 2, 3, 4, 0]);
    let q = u.bind_then(&course_row(Some(8), 9, None), Value::Int(7));
    assert_eq!(int_value(&q.args[0]), 9);
    assert_eq!(int_value(&q.args[4]), 8);
    assert_eq!(int_value(&q.args[5]), 7);
    assert_eq!(u.filter, vec![0, 1]);
    let del = delete_owned(&d);
    assert_eq!(del.text, "DELETE FROM courses WHERE id = $1 AND user_id = $2");
    assert_eq!(del.params, vec![0]);
    let q = del.bind_then(&course_row(Some(8), 3, None), Value::Int(7));
    assert_eq!(q.args.len(), 2);
    assert_eq!(int_value(&q.args[0]), 8);
    assert_eq!(int_value(&q.args[1]), 7);
}
