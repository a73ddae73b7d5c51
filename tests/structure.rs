use memra::models::{Card, Course, Deck, Followers, User};
use memra::registry::build_registry;
use memra::relations::{construct, forward_lookup, relation_edges, reverse_lookup, CtorArg};
use memra::routes::{mount_table, MemraRouter, Method};
use memra::row::{Timestamp, Value};
use memra::schema::{
    build_descriptor, forward_accessor, EntityBody, EntityDef, FieldDef, PolicyTag, ScalarType,
    StructuralError,
};

fn entity(name: &str, fields: Vec<FieldDef>, policies: Vec<PolicyTag>) -> EntityDef {
    EntityDef { name: name.to_string(), table: None, body: EntityBody::Named(fields), policies }
}

fn err(def: EntityDef) -> StructuralError {
    build_descriptor(def).err().unwrap()
}

fn stored_user(id: i32) -> User {
    let mut u = User::new(
        "u".to_string(),
        "u@example.org".to_string(),
        None,
        None,
        None,
        Timestamp { secs: 0, nanos: 0 },
        Timestamp { secs: 0, nanos: 0 },
    );
    u.id = Some(id);
    u
}

#[test]
fn unnamed_fields_are_refused() {
    let def = EntityDef {
        name: "Pair".to_string(),
        table: None,
        body: EntityBody::Unnamed(2),
        policies: vec![],
    };
    assert_eq!(err(def), StructuralError::NotNamedFields);
}

#[test]
fn relation_without_target_is_refused() {
    let def = entity("Note", vec![FieldDef::foreign("user_id", "", None)], vec![]);
    assert_eq!(err(def), StructuralError::MissingRelationTarget);
}

#[test]
fn foreign_key_must_end_in_id() {
    let def = entity("Note", vec![FieldDef::foreign("owner", "User", None)], vec![]);
    assert_eq!(err(def), StructuralError::MalformedForeignKey);
}

#[test]
fn unaliased_self_relation_is_ambiguous() {
    let def = entity(
        "Follow",
        vec![FieldDef::foreign("from_id", "User", None), FieldDef::foreign("to_id", "User", None)],
        vec![],
    );
    assert_eq!(err(def), StructuralError::AmbiguousRelation);
    let aliased = entity(
        "Follow",
        vec![
            FieldDef::foreign("from_id", "User", Some("followers")),
            FieldDef::foreign("to_id", "User", Some("following")),
        ],
        vec![],
    );
    assert!(build_descriptor(aliased).is_ok());
}

#[test]
fn clashing_forward_names_are_ambiguous() {
    let def = entity(
        "Link",
        vec![
            FieldDef::foreign("user_a_id", "User", Some("a")),
            FieldDef::foreign("user_b_id", "User", Some("b")),
        ],
        vec![],
    );
    assert_eq!(err(def), StructuralError::AmbiguousRelation);
}

#[test]
fn owner_marker_needs_integer_field() {
    let def = entity("Note", vec![FieldDef::plain("user", ScalarType::Text, false).owned()], vec![]);
    assert_eq!(err(def), StructuralError::MisplacedRole);
}

#[test]
fn owner_policy_needs_owner_field() {
    let def = entity(
        "Note",
        vec![FieldDef::plain("text", ScalarType::Text, false)],
        vec![PolicyTag::DeleteIfOwner],
    );
    assert_eq!(err(def), StructuralError::MissingPolicyField);
    let def = entity(
        "Note",
        vec![FieldDef::foreign("user_id", "User", None).owned()],
        vec![PolicyTag::ReadIfVisible],
    );
    assert_eq!(err(def), StructuralError::MissingPolicyField);
}

#[test]
fn two_read_policies_conflict() {
    let def = entity(
        "Note",
        vec![FieldDef::foreign("user_id", "User", None).owned()],
        vec![PolicyTag::Read, PolicyTag::ReadIfOwner],
    );
    assert_eq!(err(def), StructuralError::ConflictingPolicies);
}

#[test]
fn registry_refuses_undeclared_target_and_duplicates() {
    let defs = vec![Course::definition()];
    assert_eq!(build_registry(defs).err(), Some(StructuralError::MissingRelationTarget));
    let defs = vec![User::definition(), User::definition()];
    assert_eq!(build_registry(defs).err(), Some(StructuralError::DuplicateEntity));
}

#[test]
fn registry_refuses_shared_collection_name() {
    let a = entity("Post", vec![FieldDef::foreign("user_id", "User", Some("items"))], vec![]);
    let b = entity("Photo", vec![FieldDef::foreign("user_id", "User", Some("items"))], vec![]);
    let defs = vec![User::definition(), a, b];
    assert_eq!(build_registry(defs).err(), Some(StructuralError::AmbiguousRelation));
}

#[test]
fn accessor_names() {
    assert_eq!(forward_accessor("deck_id"), "get_deck");
    assert_eq!(forward_accessor("following_id"), "get_following");
    let d = build_descriptor(Followers::definition()).unwrap();
    let edges = relation_edges(&d);
    assert_eq!(edges.len(), 2);
    assert_eq!(edges[0].field, 1);
    assert_eq!(edges[0].forward, "get_follower");
    assert_eq!(edges[0].reverse, "find_followers");
    assert_eq!(edges[1].reverse, "find_following");
    let card = build_descriptor(Card::definition()).unwrap();
    let edges = relation_edges(&card);
    assert_eq!(edges[1].target, "Deck");
    assert_eq!(edges[1].reverse, "find_card");
}

#[test]
fn forward_and_reverse_lookups() {
    let cards = build_descriptor(Card::definition()).unwrap();
    let decks = build_descriptor(Deck::definition()).unwrap();
    let mut card = Card::new(7, 3, vec![], vec![]);
    card.id = Some(40);
    let q = forward_lookup(&decks, 2, &card.into_row());
    assert_eq!(q.text, "SELECT * FROM decks WHERE id = $1");
    assert!(matches!(q.args[0], Value::Int(3)));
    let mut deck = Deck::new(7, None, "d".to_string(), vec![]);
    deck.id = Some(3);
    let q = reverse_lookup(&cards, 2, &deck.into_row());
    assert_eq!(q.text, "SELECT * FROM cards WHERE deck_id = $1");
    assert!(matches!(q.args[0], Value::Int(3)));
    assert_eq!(q.filter, vec![2]);
    let unsaved = Deck::new(7, None, "d".to_string(), vec![]);
    let q = reverse_lookup(&cards, 2, &unsaved.into_row());
    assert!(matches!(q.args[0], Value::Null));
}

#[test]
fn constructor_refuses_unstored_related_rows() {
    let unsaved_deck = Deck::new(7, None, "d".to_string(), vec![]);
    let user = stored_user(7);
    assert!(Card::new_from(&user, &unsaved_deck, vec![], vec![]).is_none());
    let mut deck = Deck::new(7, None, "d".to_string(), vec![]);
    deck.id = Some(9);
    let card = Card::new_from(&user, &deck, vec![1], vec![2]).unwrap();
    assert_eq!(card.id, None);
    assert_eq!(card.user_id, 7);
    assert_eq!(card.deck_id, 9);
    let mut unsaved_user = stored_user(1);
    unsaved_user.id = None;
    assert!(Followers::new_from(&unsaved_user, &user).is_none());
}

#[test]
fn mount_table_uses_lower_case_prefixes() {
    let ds = build_registry(memra::models::declarations()).unwrap();
    let mounts = mount_table(&ds);
    assert_eq!(mounts.len(), 7);
    assert_eq!(mounts[0].prefix, "/course");
    assert_eq!(mounts[0].entity, 2);
    let r = &mounts[0].routes;
    assert_eq!(r.len(), 4);
    assert_eq!(r[0].method, Method::Post);
    assert_eq!(r[0].path, "/");
    assert_eq!(r[0].handler, "create_course");
    assert_eq!(r[1].method, Method::Get);
    assert_eq!(r[1].path, "/<id>");
    assert_eq!(r[1].handler, "read_course");
    assert_eq!(r[1].policy, PolicyTag::ReadIfVisible);
    assert_eq!(r[2].method, Method::Put);
    assert_eq!(r[3].method, Method::Delete);
    assert_eq!(r[3].handler, "delete_course");
    let prefixes: Vec<&str> = mounts.iter().map(|m| m.prefix.as_str()).collect();
    assert_eq!(
        prefixes,
        vec!["/course", "/deck", "/card", "/history", "/settings", "/notification", "/addon"]
    );
}

#[test]
fn router_keeps_the_mount_table() {
    let ds = build_registry(memra::models::declarations()).unwrap();
    let router = MemraRouter::new(&ds);
    let mounts = router.mounts();
    assert_eq!(mounts.len(), 7);
    assert_eq!(mounts[6].prefix, "/addon");
    assert_eq!(mounts[6].routes[1].handler, "read_addon");
    assert_eq!(mounts[2].routes[1].policy, PolicyTag::ReadIfOwner);
}

#[test]
fn duplicate_or_key_named_fields_are_refused() {
    let def = entity(
        "Note",
        vec![FieldDef::plain("text", ScalarType::Text, false), FieldDef::plain("text", ScalarType::Text, true)],
        vec![],
    );
    assert_eq!(err(def), StructuralError::DuplicateField);
    let def = entity("Note", vec![FieldDef::plain("id", ScalarType::Int, false)], vec![]);
    assert_eq!(err(def), StructuralError::DuplicateField);
}

#[test]
fn foreign_key_must_be_non_null_integer() {
    let mut f = FieldDef::foreign("user_id", "User", None);
    f.nullable = true;
    assert_eq!(err(entity("Note", vec![f], vec![])), StructuralError::MalformedForeignKey);
    let mut f = FieldDef::foreign("user_id", "User", None);
    f.ty = ScalarType::Text;
    assert_eq!(err(entity("Note", vec![f], vec![])), StructuralError::MalformedForeignKey);
}

#[test]
fn generic_constructor_refuses_unstored_related_rows() {
    let cards = build_descriptor(Card::definition()).unwrap();
    let args = vec![
        CtorArg::Related(Some(7)),
        CtorArg::Related(None),
        CtorArg::Raw(Value::Bytes(vec![])),
        CtorArg::Raw(Value::Bytes(vec![])),
    ];
    assert!(construct(&cards, &args).is_none());
    let args = vec![
        CtorArg::Related(Some(7)),
        CtorArg::Related(Some(3)),
        CtorArg::Raw(Value::Bytes(vec![1])),
        CtorArg::Raw(Value::Bytes(vec![2])),
    ];
    let row = construct(&cards, &args).unwrap();
    assert_eq!(row.values.len(), 5);
    assert!(matches!(row.values[0], Value::Null));
    assert!(matches!(row.values[2], Value::Int(3)));
    let card = Card::from_row(row).unwrap();
    assert_eq!(card.deck_id, 3);
    let misplaced = vec![
        CtorArg::Related(Some(7)),
        CtorArg::Related(Some(3)),
        CtorArg::Related(Some(1)),
        CtorArg::Raw(Value::Bytes(vec![])),
    ];
    assert!(construct(&cards, &misplaced).is_none());
    assert!(construct(&cards, &vec![]).is_none());
}
