use memra::account::{
    check_login, credentials_for, delete_account, read_user, register_credentials, AccountError,
    Registration,
};
use memra::auth::{bearer_token, AuthenticatedUser, AuthenticationError, User as Caller};
use memra::guard::{
    create_as_owner, delete_if_owner, read_if_owner, read_if_visible, update_if_owner, Refusal,
};
use memra::models::{Card, Course, Credentials, User};
use memra::row::{Row, Timestamp, Value};
use memra::schema::{build_descriptor, EntityDescriptor};

fn user(id: Option<i32>) -> User {
    let mut u = User::new(
        "ann".to_string(),
        "ann@example.org".to_string(),
        Some("Ann".to_string()),
        Some(false),
        Some(true),
        Timestamp { secs: 1, nanos: 0 },
        Timestamp { secs: 1, nanos: 0 },
    );
    u.id = id;
    u
}

fn principal(id: i32) -> AuthenticatedUser {
    AuthenticatedUser::from_user(user(Some(id)))
}

fn caller(id: i32) -> Caller {
    Caller::Authenticated(principal(id))
}

fn courses() -> EntityDescriptor {
    build_descriptor(Course::definition()).unwrap()
}

fn course(id: Option<i32>, owner: i32, visibility: Option<bool>) -> Row {
    let mut c = Course::new(owner, visibility, "Rust".to_string(), vec![9]);
    c.id = id;
    c.into_row()
}

fn owner_of(row: &Row) -> i32 {
    Course::from_row(row.clone()).unwrap().user_id
}

fn int_value(v: &Value) -> i32 {
    match v {
        Value::Int(i) => *i,
        other => panic!("not an integer: {:?}", other),
    }
}

#[test]
fn read_if_owner_shows_only_to_owner() {
    let cards = build_descriptor(Card::definition()).unwrap();
    let mut c = Card::new(7, 1, vec![], vec![]);
    c.id = Some(2);
    let row = c.into_row();
    assert!(read_if_owner(&cards, Some(row.clone()), &principal(7)).is_ok());
    assert_eq!(read_if_owner(&cards, Some(row), &principal(8)).err(), Some(Refusal::Denied));
    assert_eq!(read_if_owner(&cards, None, &principal(7)).err(), Some(Refusal::NotFound));
}

#[test]
fn caller_without_id_is_refused() {
    let cards = build_descriptor(Card::definition()).unwrap();
    let c = Card::new(7, 1, vec![], vec![]).into_row();
    let no_id = AuthenticatedUser::from_user(user(None));
    assert_eq!(Caller::Authenticated(no_id.clone()).id(), None);
    assert!(read_if_owner(&cards, Some(c), &no_id).is_err());
}

#[test]
fn read_if_visible_follows_the_flag() {
    let d = courses();
    let public = course(Some(1), 7, Some(false));
    let unset = course(Some(1), 7, None);
    let private = course(Some(1), 7, Some(true));
    assert!(read_if_visible(&d, Some(public.clone()), &Caller::Guest).is_ok());
    assert!(read_if_visible(&d, Some(public), &caller(8)).is_ok());
    assert!(read_if_visible(&d, Some(unset), &Caller::Guest).is_ok());
    assert!(read_if_visible(&d, Some(private.clone()), &Caller::Guest).is_err());
    assert!(read_if_visible(&d, Some(private.clone()), &caller(8)).is_err());
    assert!(read_if_visible(&d, Some(private), &caller(7)).is_ok());
    assert!(read_if_visible(&d, None, &caller(7)).is_err());
}

#[test]
fn course_scenario_with_owner_seven() {
    let d = courses();
    // Create as owner 7; the submitted owner is overwritten.
    let q = create_as_owner(&d, course(None, 99, Some(true)), &principal(7)).unwrap();
    assert_eq!(q.text, "INSERT INTO courses (user_id,visibility,name,image) VALUES ($1,$2,$3,$4) RETURNING *");
    assert_eq!(int_value(&q.args[0]), 7);
    // The store assigns id 1.
    let mut values = vec![Value::Int(1)];
    values.extend(q.args.into_iter());
    let stored = Row { values };
    assert_eq!(owner_of(&stored), 7);
    let mut table = vec![stored];

    let find = |table: &Vec<Row>, id: i32| -> Option<Row> {
        table.iter().find(|r| matches!(r.values[0], Value::Int(k) if k == id)).cloned()
    };

    assert!(read_if_visible(&d, find(&table, 1), &Caller::Guest).is_err());
    let seen = read_if_visible(&d, find(&table, 1), &caller(7)).unwrap();
    assert_eq!(owner_of(&seen), 7);

    let mut changed = Course::from_row(seen.clone()).unwrap();
    changed.name = "Changed".to_string();
    assert!(update_if_owner(&d, changed.into_row(), find(&table, 1), &principal(8)).is_err());
    let unchanged = Course::from_row(find(&table, 1).unwrap()).unwrap();
    assert_eq!(unchanged.name, "Rust");

    let del = delete_if_owner(&d, 1, find(&table, 1), &principal(7)).unwrap();
    assert_eq!(del.text, "DELETE FROM courses WHERE id = $1 AND user_id = $2");
    let target = int_value(&del.args[0]);
    table.retain(|r| !matches!(r.values[0], Value::Int(k) if k == target));
    assert!(find(&table, 1).is_none());
}

#[test]
fn update_if_owner_binds_payload_then_key() {
    let d = courses();
    let existing = course(Some(5), 7, None);
    let mut payload = Course::from_row(course(Some(5), 42, Some(true))).unwrap();
    payload.name = "New".to_string();
    let q = update_if_owner(&d, payload.into_row(), Some(existing.clone()), &principal(7)).unwrap();
    assert!(q.text.ends_with("WHERE id = $5 AND user_id = $6 RETURNING *"));
    assert_eq!(q.args.len(), 6);
    // The submitted owner is written as submitted; the caller only guards.
    assert_eq!(int_value(&q.args[0]), 42);
    assert!(matches!(&q.args[2], Value::Text(t) if t == "New"));
    assert_eq!(int_value(&q.args[4]), 5);
    assert_eq!(int_value(&q.args[5]), 7);
    let no_key = course(None, 7, None);
    assert!(update_if_owner(&d, no_key, Some(existing.clone()), &principal(7)).is_err());
    let other_key = course(Some(6), 7, None);
    assert!(update_if_owner(&d, other_key, Some(existing), &principal(7)).is_err());
    assert!(update_if_owner(&d, course(Some(5), 7, None), None, &principal(7)).is_err());
}

#[test]
fn delete_binds_record_id_not_principal_id() {
    let d = courses();
    let existing = course(Some(31), 7, None);
    let q = delete_if_owner(&d, 31, Some(existing.clone()), &principal(7)).unwrap();
    assert_eq!(q.args.len(), 2);
    assert_eq!(int_value(&q.args[0]), 31);
    assert_eq!(int_value(&q.args[1]), 7);
    assert!(delete_if_owner(&d, 31, Some(existing), &principal(8)).is_err());
    assert!(delete_if_owner(&d, 31, None, &principal(7)).is_err());
}

#[test]
fn create_needs_a_caller_id() {
    let d = courses();
    let anonymous = AuthenticatedUser::from_user(user(None));
    assert!(create_as_owner(&d, course(None, 1, None), &anonymous).is_err());
    let short = Row { values: vec![Value::Null] };
    assert!(create_as_owner(&d, short, &principal(7)).is_err());
}

#[test]
fn bearer_prefix_is_required() {
    assert_eq!(bearer_token("Bearer abc.def").ok(), Some("abc.def".to_string()));
    assert!(matches!(bearer_token("Basic abc"), Err(AuthenticationError::Missing)));
    assert!(matches!(bearer_token(""), Err(AuthenticationError::Missing)));
}

#[test]
fn token_expires_a_day_after_issue() {
    let c = principal(3).issued_at(1000).unwrap();
    assert_eq!(c.expires_at(), 87400);
    assert_eq!(c.id(), 3);
    assert!(principal(3).issued_at(i64::MAX).is_none());
    assert!(principal(3).issued_at(-100000).is_none());
    let now = principal(3).issue().unwrap();
    assert!(now.expires_at() > 86400);
    let decoded = AuthenticatedUser::from_claims(user(Some(4)), 55);
    assert_eq!(decoded.exp, 55);
}

#[test]
fn login_checks_credentials() {
    let u = user(Some(3));
    assert_eq!(check_login(None, &vec![], "pw").err(), Some(AccountError::InvalidCredentials));
    assert_eq!(
        check_login(Some(u.clone()), &vec![], "pw").err(),
        Some(AccountError::CredentialsUnverifiable)
    );
    let bad = Credentials::new(3, "not a hash".to_string());
    assert_eq!(
        check_login(Some(u.clone()), &vec![bad], "pw").err(),
        Some(AccountError::CredentialsUnverifiable)
    );
    let creds = register_credentials(&u, "secret pw").unwrap();
    assert_eq!(creds.id, None);
    assert_eq!(creds.user_id, 3);
    assert_ne!(creds.password, "secret pw");
    assert!(creds.password.starts_with("$argon2"));
    let ok = check_login(Some(u.clone()), &vec![creds.clone()], "secret pw").unwrap();
    assert_eq!(ok.data.id, Some(3));
    assert_eq!(
        check_login(Some(u), &vec![creds], "wrong").err(),
        Some(AccountError::InvalidCredentials)
    );
}

#[test]
fn registration_builds_private_unverified_user() {
    let r = Registration {
        real_name: None,
        username: "bob".to_string(),
        email: "bob@example.org".to_string(),
        password: "pw".to_string(),
    };
    let u = r.new_user(Timestamp { secs: 10, nanos: 0 });
    assert_eq!(u.id, None);
    assert_eq!(u.username, "bob");
    assert_eq!(u.visibility, Some(true));
    assert_eq!(u.verified, Some(false));
    assert_eq!(u.created_at, Timestamp { secs: 10, nanos: 0 });
    assert_eq!(register_credentials(&u, "pw").err(), Some(AccountError::UserNotStored));
    assert_eq!(credentials_for(&user(Some(2)), None).err(), Some(AccountError::HashFailed));
    let c = credentials_for(&user(Some(2)), Some("h".to_string())).unwrap();
    assert_eq!(c.user_id, 2);
    assert_eq!(c.password, "h");
}

#[test]
fn user_records_respect_visibility() {
    let mut private = user(Some(5));
    private.visibility = Some(true);
    assert!(read_user(Some(private.clone()), &principal(5)).is_some());
    assert!(read_user(Some(private), &principal(6)).is_none());
    assert!(read_user(Some(user(Some(5))), &principal(6)).is_some());
    assert!(read_user(Some(user(None)), &principal(6)).is_none());
    assert!(read_user(None, &principal(6)).is_none());
}

#[test]
fn account_deletion_targets_own_record() {
    let users = build_descriptor(User::definition()).unwrap();
    let q = delete_account(&users, &principal(9)).unwrap();
    assert_eq!(q.text, "DELETE FROM users WHERE id = $1");
    assert_eq!(int_value(&q.args[0]), 9);
    assert!(delete_account(&users, &AuthenticatedUser::from_user(user(None))).is_none());
}

#[test]
fn account_errors_report_status_and_message() {
    assert_eq!(AccountError::InvalidCredentials.status(), 401);
    assert_eq!(AccountError::InvalidCredentials.message(), "Invalid login credentials.");
    assert_eq!(AccountError::HashFailed.status(), 500);
    assert_eq!(AccountError::TokenNotIssued.status(), 400);
    assert_eq!(AccountError::CredentialsNotStored.status(), 500);
    assert_eq!(
        AccountError::CredentialsNotStored.message(),
        "Could not register user credentials. Please try again."
    );
    assert_eq!(AccountError::CredentialsUnverifiable.message(), "Could not verify login credentials.");
}

#[test]
fn refusals_keep_missing_apart_from_forbidden() {
    let d = courses();
    let private = course(Some(1), 7, Some(true));
    assert_eq!(read_if_visible(&d, None, &caller(7)).err(), Some(Refusal::NotFound));
    assert_eq!(read_if_visible(&d, Some(private.clone()), &Caller::Guest).err(), Some(Refusal::Denied));
    assert_eq!(delete_if_owner(&d, 1, None, &principal(7)).err(), Some(Refusal::NotFound));
    assert_eq!(delete_if_owner(&d, 1, Some(private.clone()), &principal(8)).err(), Some(Refusal::Denied));
    assert_eq!(
        update_if_owner(&d, course(None, 7, None), Some(private.clone()), &principal(7)).err(),
        Some(Refusal::Malformed)
    );
    assert_eq!(
        update_if_owner(&d, course(Some(1), 7, None), None, &principal(7)).err(),
        Some(Refusal::NotFound)
    );
    let short = Row { values: vec![Value::Null] };
    assert_eq!(create_as_owner(&d, short, &principal(7)).err(), Some(Refusal::Malformed));
}
