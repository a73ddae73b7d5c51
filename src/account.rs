//! Account handling: registration, login and access to user records.
use vstd::prelude::*;
use argon2::password_hash::SaltString;
use argon2::{PasswordHasher, PasswordVerifier};
use crate::auth::AuthenticatedUser;
use crate::models::{Credentials, User};
use crate::row::{Cell, Timestamp, Value};
use crate::schema::EntityDescriptor;
use crate::sql::{self, delete_text, Query};

verus! {

#[verifier::external_type_specification]
#[verifier::external_body]
pub struct ExSaltString(SaltString);

/// Whether `PasswordHash::new` accepts a string as a PHC hash.
pub uninterp spec fn phc_well_formed(s: Seq<char>) -> bool;

/// Whether Argon2 confirms that `password` matches the PHC hash `phc`.
pub uninterp spec fn password_verifies(password: Seq<char>, phc: Seq<char>) -> bool;

/// Relies on `password_hash::PasswordHash::new`: whether the string parses
/// as a PHC hash; the answer depends on the string alone.
#[verifier::external_body]
fn parses_as_phc(s: &str) -> (r: bool)
    ensures
        r == phc_well_formed(s@),
{
    argon2::PasswordHash::new(s).is_ok()
}

/// Relies on `PasswordVerifier::verify_password` of `Argon2::default()`: it
/// recomputes the hash with the salt and parameters the PHC string holds and
/// compares, so the answer depends on the two strings alone.
#[verifier::external_body]
fn verify_password(password: &str, phc: &str) -> (r: bool)
    requires
        phc_well_formed(phc@),
    ensures
        r == password_verifies(password@, phc@),
{
    match argon2::PasswordHash::new(phc) {
        Ok(h) => argon2::Argon2::default().verify_password(password.as_bytes(), &h).is_ok(),
        Err(_) => false,
    }
}

/// Relies on `SaltString::generate` over the operating system's random source.
#[verifier::external_body]
fn fresh_salt() -> (r: SaltString) {
    SaltString::generate(&mut argon2::password_hash::rand_core::OsRng)
}

/// Relies on `PasswordHasher::hash_password` of `Argon2::default()`: the PHC
/// string of the hash, or nothing when hashing fails. As the crate's own
/// documentation shows, a produced string parses and verifies the password.
#[verifier::external_body]
fn hash_with_salt(password: &str, salt: &SaltString) -> (r: Option<String>)
    ensures
        r matches Some(h) ==> phc_well_formed(h@) && password_verifies(password@, h@),
{
    argon2::Argon2::default().hash_password(password.as_bytes(), salt).ok().map(|h| h.to_string())
}

/// Why a login or a registration failed.
#[derive(Clone, Copy, Debug, PartialEq, Eq, Structural)]
pub enum AccountError {
    /// Unknown user, or wrong password.
    InvalidCredentials,
    /// The stored credentials are missing or unreadable.
    CredentialsUnverifiable,
    /// The user record was not stored.
    UserNotStored,
    /// The password could not be hashed.
    HashFailed,
    /// The credentials record was not stored.
    CredentialsNotStored,
    /// No token could be issued.
    TokenNotIssued,
}

/// A registration request.
#[derive(Clone, Debug)]
pub struct Registration {
    pub real_name: Option<String>,
    pub username: String,
    pub email: String,
    pub password: String,
}

/// A login request.
#[derive(Clone, Debug)]
pub struct LoginRequest {
    pub username: String,
    pub password: String,
}

/// The token handed to a client that logged in or registered.
#[derive(Clone, Debug)]
pub struct JwtToken {
    pub token: String,
}

impl AccountError {
    /// The HTTP status this error is reported with.
    pub fn status(&self) -> (r: u16)
        ensures
            r == match *self {
                AccountError::InvalidCredentials => 401u16,
                AccountError::TokenNotIssued => 400u16,
                _ => 500u16,
            },
    {
        match self {
            AccountError::InvalidCredentials => 401,
            AccountError::TokenNotIssued => 400,
            _ => 500,
        }
    }

    /// The message this error is reported with.
    pub fn message(&self) -> (r: String)
        ensures
            r@ == match *self {
                AccountError::InvalidCredentials => "Invalid login credentials."@,
                AccountError::CredentialsUnverifiable => "Could not verify login credentials."@,
                AccountError::UserNotStored => "Could not register user. Please try again."@,
                AccountError::HashFailed => "Could not create user credentials. Please try again."@,
                AccountError::CredentialsNotStored => "Could not register user credentials. Please try again."@,
                AccountError::TokenNotIssued => "Could not issue a token."@,
            },
    {
        String::from_str(
            match self {
                AccountError::InvalidCredentials => "Invalid login credentials.",
                AccountError::CredentialsUnverifiable => "Could not verify login credentials.",
                AccountError::UserNotStored => "Could not register user. Please try again.",
                AccountError::HashFailed => "Could not create user credentials. Please try again.",
                AccountError::CredentialsNotStored => "Could not register user credentials. Please try again.",
                AccountError::TokenNotIssued => "Could not issue a token.",
            },
        )
    }
}

fn copy_opt_text(s: &Option<String>) -> (r: Option<String>)
    ensures
        r == *s,
{
    match s {
        Some(t) => Some(t.clone()),
        None => None,
    }
}

impl Registration {
    /// The user record to store for this registration at time `now`: private
    /// and not yet verified.
    pub fn new_user(&self, now: Timestamp) -> (r: User)
        ensures
            r == (User {
                id: None,
                username: self.username,
                email: self.email,
                real_name: self.real_name,
                visibility: Some(true),
                verified: Some(false),
                created_at: now,
                last_login: now,
            }),
    {
        User::new(
            self.username.clone(),
            self.email.clone(),
            copy_opt_text(&self.real_name),
            Some(true),
            Some(false),
            now,
            now,
        )
    }
}

/// The outcome of a login, given the user looked up by name, that user's
/// credential records, and the submitted password.
pub open spec fn login_outcome(found: Option<User>, creds: Seq<Credentials>, password: Seq<char>) -> Result<
    User,
    AccountError,
> {
    match found {
        None => Err(AccountError::InvalidCredentials),
        Some(u) => if creds.len() == 0 || !phc_well_formed(creds[0].password@) {
            Err(AccountError::CredentialsUnverifiable)
        } else if !password_verifies(password, creds[0].password@) {
            Err(AccountError::InvalidCredentials)
        } else {
            Ok(u)
        },
    }
}

/// Checks a login: the claims for the user when the password matches the
/// first of the user's credential records.
pub fn check_login(found: Option<User>, creds: &Vec<Credentials>, password: &str) -> (r: Result<
    AuthenticatedUser,
    AccountError,
>)
    ensures
        match login_outcome(found, creds@, password@) {
            Ok(u) => r matches Ok(c) && c.data == u && c.exp == 0,
            Err(e) => r matches Err(f) && f == e,
        },
{
    let user = match found {
        Some(u) => u,
        None => return Err(AccountError::InvalidCredentials),
    };
    if creds.len() == 0 {
        return Err(AccountError::CredentialsUnverifiable);
    }
    let phc = creds[0].password.as_str();
    if !parses_as_phc(phc) {
        return Err(AccountError::CredentialsUnverifiable);
    }
    if !verify_password(password, phc) {
        return Err(AccountError::InvalidCredentials);
    }
    Ok(AuthenticatedUser::from_user(user))
}

/// The credentials record for a stored user and the hash of their password;
/// `HashFailed` when there is no hash, `UserNotStored` when the user has no id.
pub fn credentials_for(user: &User, hash: Option<String>) -> (r: Result<Credentials, AccountError>)
    ensures
        r == if user.id is None {
            Err(AccountError::UserNotStored)
        } else {
            match hash {
                None => Err(AccountError::HashFailed),
                Some(h) => Ok(Credentials { id: None, user_id: user.id->0, password: h }),
            }
        },
{
    if user.id.is_none() {
        return Err(AccountError::UserNotStored);
    }
    match hash {
        None => Err(AccountError::HashFailed),
        Some(h) => match Credentials::new_from(user, h) {
            Some(c) => Ok(c),
            None => Err(AccountError::UserNotStored),
        },
    }
}

/// The credentials record for a newly stored user: the password hashed
/// with a fresh random salt.
pub fn register_credentials(user: &User, password: &str) -> (r: Result<Credentials, AccountError>)
    ensures
        (r == Err::<Credentials, AccountError>(AccountError::UserNotStored)) <==> user.id is None,
        r matches Ok(c) ==> {
            &&& c.id is None
            &&& c.user_id == user.id->0
            &&& phc_well_formed(c.password@)
            &&& password_verifies(password@, c.password@)
        },
        r matches Err(e) ==> e is UserNotStored || e is HashFailed,
{
    if user.id.is_none() {
        return Err(AccountError::UserNotStored);
    }
    let salt = fresh_salt();
    credentials_for(user, hash_with_salt(password, &salt))
}

/// Reading a user record: shown unless it has no id, or it is private and
/// belongs to someone other than the caller.
pub fn read_user(found: Option<User>, caller: &AuthenticatedUser) -> (r: Option<User>)
    ensures
        r == match found {
            Some(u) => if u.id is None || (u.visibility == Some(true) && caller.data.id != u.id) {
                None
            } else {
                Some(u)
            },
            None => None,
        },
{
    let u = match found {
        Some(u) => u,
        None => return None,
    };
    if u.id.is_none() {
        return None;
    }
    if u.visibility == Some(true) && caller.data.id != u.id {
        return None;
    }
    Some(u)
}

/// Deleting one's own account: the delete of the caller's user record.
pub fn delete_account(users: &EntityDescriptor, caller: &AuthenticatedUser) -> (r: Option<Query>)
    ensures
        match caller.data.id {
            Some(id) => r matches Some(q) && q@ == (delete_text(*users), seq![Cell::Int(id)], seq![0usize]),
            None => r is None,
        },
{
    match caller.data.id {
        Some(id) => Some(sql::delete(users).bind_value(Value::Int(id))),
        None => None,
    }
}

} // verus!
