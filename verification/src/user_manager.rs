//! The user records that the database keeps, and the decisions taken on them
//! around a query: the row a new user is stored as, whether a password change
//! may go ahead, and what a login check answers.

use vstd::prelude::*;
use bcrypt::BcryptError;
use crate::password::{bcrypt_verify_outcome, hash_new_password, issued_for, verify_password, HashFailure};

verus! {

/// A user's public profile.
#[derive(Debug, Clone, PartialEq, Eq)]
pub struct Profile {
    pub user_id: i64,
    pub username: String,
    pub avatar_url: Option<String>,
}

/// A user's profile with every detail the user filled in.
#[derive(Debug, Clone, PartialEq, Eq)]
pub struct FullProfile {
    pub user_id: i64,
    pub username: String,
    pub avatar_url: Option<String>,
    pub first_name: Option<String>,
    pub last_name: Option<String>,
    pub bio: Option<String>,
    pub country: Option<String>,
    pub city: Option<String>,
}

/// The profile details that a user may change.
#[derive(Debug, Clone, PartialEq, Eq)]
pub struct ProfileMetadata {
    pub username: String,
    pub email: String,
    pub first_name: Option<String>,
    pub last_name: Option<String>,
    pub bio: Option<String>,
    pub country: Option<String>,
    pub city: Option<String>,
}

/// What a new user signs up with.
#[derive(Debug, Clone, PartialEq, Eq)]
pub struct CreateUserData {
    pub username: String,
    pub email: String,
    pub password: String,
    pub first_name: Option<String>,
    pub last_name: Option<String>,
}

/// The row that is inserted for a new user: the sign-up data with the
/// password replaced by its hash.
#[derive(Debug, Clone, PartialEq, Eq)]
pub struct NewUserRecord {
    pub username: String,
    pub email: String,
    pub password_hash: String,
    pub first_name: Option<String>,
    pub last_name: Option<String>,
}

/// Why a password change was refused.
pub enum PasswordChangeError {
    /// bcrypt failed, on the stored hash or while hashing the new password.
    Hash(HashFailure),
    /// The old password does not match the stored hash.
    Mismatch,
}

/// The view of an optional text.
pub open spec fn opt_view(o: Option<String>) -> Option<Seq<char>> {
    match o {
        Some(s) => Some(s@),
        None => None,
    }
}

fn copy_opt(o: &Option<String>) -> (r: Option<String>)
    ensures
        opt_view(r) == opt_view(*o),
{
    match o {
        Some(s) => Some(s.clone()),
        None => None,
    }
}

/// Whether `row` holds the sign-up data of `data`, with `password_hash` in
/// place of the password.
pub open spec fn record_matches(row: NewUserRecord, data: CreateUserData, password_hash: Seq<char>) -> bool {
    &&& row.username@ == data.username@
    &&& row.email@ == data.email@
    &&& row.password_hash@ == password_hash
    &&& opt_view(row.first_name) == opt_view(data.first_name)
    &&& opt_view(row.last_name) == opt_view(data.last_name)
}

/// The row for a new user whose password hashed to `password_hash`.
pub fn new_user_record(data: &CreateUserData, password_hash: String) -> (row: NewUserRecord)
    ensures
        record_matches(row, *data, password_hash@),
{
    NewUserRecord {
        username: data.username.clone(),
        email: data.email.clone(),
        password_hash,
        first_name: copy_opt(&data.first_name),
        last_name: copy_opt(&data.last_name),
    }
}

/// The row for a new user from what hashing the password returned: the row
/// with that hash, or the hashing error unchanged.
pub fn new_user_from_hash(data: &CreateUserData, hashed: Result<String, BcryptError>) -> (r: Result<NewUserRecord, BcryptError>)
    ensures
        match hashed {
            Ok(h) => r matches Ok(row) && record_matches(row, *data, h@),
            Err(e) => r == Err::<NewUserRecord, BcryptError>(e),
        },
{
    match hashed {
        Ok(h) => Ok(new_user_record(data, h)),
        Err(e) => Err(e),
    }
}

/// What a sign-up may give for `data`: the row holding the sign-up data and a
/// hash issued for the password, or a failure raised while hashing the
/// password. Nothing else refuses a sign-up; the optional fields play no part.
pub open spec fn signup_outcome(data: CreateUserData, r: Result<NewUserRecord, HashFailure>) -> bool {
    match r {
        Ok(row) => record_matches(row, data, row.password_hash@) && issued_for(data.password@, row.password_hash@),
        Err(f) => f.raised_while_hashing(),
    }
}

/// Hashes the new user's password and builds the row to insert. Hashing
/// draws a random salt and may fail; a sign-up fails only so.
pub fn prepare_new_user(data: &CreateUserData) -> (r: Result<NewUserRecord, HashFailure>)
    ensures
        r matches Ok(row) ==> record_matches(row, *data, row.password_hash@)
            && issued_for(data.password@, row.password_hash@),
        r matches Err(f) ==> f.raised_while_hashing(),
{
    match hash_new_password(data.password.as_str()) {
        Ok(h) => Ok(new_user_record(data, h)),
        Err(f) => Err(f),
    }
}

/// A sign-up is refused only by a failure of hashing its password: whatever
/// result is allowed for one sign-up's failure is allowed for any other
/// sign-up, with any username, email and optional names, and a row is only
/// ever the sign-up's own data with a hash issued for its password.
pub proof fn lemma_signup_fails_only_in_hashing(data: CreateUserData, other: CreateUserData, r: Result<NewUserRecord, HashFailure>)
    requires
        signup_outcome(data, r),
    ensures
        r is Err ==> signup_outcome(other, r),
        r matches Err(f) ==> f.raised_while_hashing(),
        r matches Ok(row) ==> row.username@ == data.username@ && row.email@ == data.email@
            && opt_view(row.first_name) == opt_view(data.first_name)
            && opt_view(row.last_name) == opt_view(data.last_name)
            && bcrypt_verify_outcome(data.password@, row.password_hash@) == Some(true),
{
}

/// Decides a password change against the hash stored for the user: the old
/// password must verify, then the new one is hashed. Returns the hash to store.
pub fn check_password_change(stored_hash: &str, old_password: &str, new_password: &str) -> (r: Result<String, PasswordChangeError>)
    ensures
        bcrypt_verify_outcome(old_password@, stored_hash@) is None ==> (r matches Err(PasswordChangeError::Hash(f)) && !f.raised_while_hashing()),
        bcrypt_verify_outcome(old_password@, stored_hash@) == Some(false) ==> r matches Err(PasswordChangeError::Mismatch),
        change_may_proceed(old_password@, stored_hash@) ==> (r matches Ok(h) && issued_for(new_password@, h@))
            || (r matches Err(PasswordChangeError::Hash(f)) && f.raised_while_hashing()),
        r matches Ok(h) ==> change_may_proceed(old_password@, stored_hash@) && issued_for(new_password@, h@),
{
    match verify_password(old_password, stored_hash) {
        Err(e) => Err(PasswordChangeError::Hash(HashFailure::from_error(e))),
        Ok(false) => Err(PasswordChangeError::Mismatch),
        Ok(true) => match hash_new_password(new_password) {
            Ok(h) => Ok(h),
            Err(f) => Err(PasswordChangeError::Hash(f)),
        },
    }
}

/// Answers a login check for the user found under the given name: the user's
/// id, unless bcrypt fails on the stored hash. Whether the password matched
/// does not enter the answer: only a bcrypt failure refuses the login.
pub fn check_login(user_id: i64, password: &str, password_hash: &str) -> (r: Result<i64, BcryptError>)
    ensures
        r is Ok <==> login_accepts(password@, password_hash@),
        r matches Ok(id) ==> id == user_id,
{
    match verify_password(password, password_hash) {
        Ok(_) => Ok(user_id),
        Err(e) => Err(e),
    }
}

/// Whether a login check with `password` against `hash` answers the user's id.
pub open spec fn login_accepts(password: Seq<char>, hash: Seq<char>) -> bool {
    bcrypt_verify_outcome(password, hash) is Some
}

/// Whether a password change with old password `password` against the stored
/// `hash` gets past the check of the old password.
pub open spec fn change_may_proceed(password: Seq<char>, hash: Seq<char>) -> bool {
    bcrypt_verify_outcome(password, hash) == Some(true)
}

/// After a password change, the hash that was stored lets the new password
/// through both the next login check and the next password change.
pub proof fn lemma_changed_password_is_accepted(new_password: Seq<char>, stored: Seq<char>)
    requires
        issued_for(new_password, stored),
    ensures
        login_accepts(new_password, stored),
        change_may_proceed(new_password, stored),
{
}

} // verus!
