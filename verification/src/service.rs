//! How the service answers requests: which status a failure is reported
//! with, and the order of the steps that replace a user's avatar or banner.

use vstd::prelude::*;
use crate::password::HashFailure;
use crate::user_manager::PasswordChangeError;

verus! {

/// The gRPC status codes that the service answers with.
#[derive(Debug, Clone, Copy, PartialEq, Eq)]
pub enum RpcCode {
    /// gRPC code OK.
    Success,
    Cancelled,
    /// A failure that is not one of the others; its message says what happened.
    Unknown,
    InvalidArgument,
    DeadlineExceeded,
    NotFound,
    /// The request would store a username or email that another user has.
    AlreadyExists,
    PermissionDenied,
    ResourceExhausted,
    FailedPrecondition,
    Aborted,
    OutOfRange,
    Unimplemented,
    Internal,
    Unavailable,
    DataLoss,
    Unauthenticated,
}

/// A failure answer: a code and a message.
#[derive(Debug, Clone, PartialEq, Eq)]
pub struct RpcStatus {
    pub code: RpcCode,
    pub message: String,
}

/// A failed database operation: whether the database refused it because a
/// unique constraint would be broken, and the failure's text.
#[derive(Debug, Clone, PartialEq, Eq)]
pub struct DbFailure {
    pub unique_violation: bool,
    pub message: String,
}

/// Why creating a user failed.
pub enum CreateUserFailure {
    /// Hashing the password failed.
    Hash(HashFailure),
    /// Inserting the user failed.
    Db(DbFailure),
}

/// Why a password change failed.
pub enum UpdatePasswordFailure {
    /// Reading the stored hash or writing the new one failed.
    Db(DbFailure),
    /// The change was refused (see `check_password_change`).
    Change(PasswordChangeError),
}

/// Why a login check failed.
pub enum VerifyPasswordFailure {
    /// No user has the name, or the database failed.
    Db(DbFailure),
    /// bcrypt failed on the stored hash.
    Hash(HashFailure),
}

/// The message of a refused password change whose old password is wrong.
pub open spec fn mismatch_message() -> Seq<char> {
    "passwords do not match"@
}

/// The message of a request refused for a unique constraint.
pub open spec fn conflict_message() -> Seq<char> {
    "Conflict"@
}

/// The answer to a failure that is reported as it is.
pub fn unknown_status(message: String) -> (s: RpcStatus)
    ensures
        s.code == RpcCode::Unknown,
        s.message@ == message@,
{
    RpcStatus { code: RpcCode::Unknown, message }
}

fn conflict_status() -> (s: RpcStatus)
    ensures
        s.code == RpcCode::AlreadyExists,
        s.message@ == conflict_message(),
{
    RpcStatus { code: RpcCode::AlreadyExists, message: String::from_str("Conflict") }
}

/// The answer to a failed read or delete: the failure as it is, whatever
/// constraint it concerns.
pub fn db_failure_status(failure: DbFailure) -> (s: RpcStatus)
    ensures
        s.code == RpcCode::Unknown,
        s.message@ == failure.message@,
{
    unknown_status(failure.message)
}

/// The answer to a failed profile update: a clash with another user's
/// username or email is a conflict, anything else is reported as it is.
pub fn update_profile_status(failure: DbFailure) -> (s: RpcStatus)
    ensures
        failure.unique_violation ==> s.code == RpcCode::AlreadyExists && s.message@ == conflict_message(),
        !failure.unique_violation ==> s.code == RpcCode::Unknown && s.message@ == failure.message@,
{
    if failure.unique_violation {
        conflict_status()
    } else {
        unknown_status(failure.message)
    }
}

/// The answer to a failed sign-up: a clash with another user's username or
/// email is a conflict, anything else is reported as it is.
pub fn create_user_status(failure: CreateUserFailure) -> (s: RpcStatus)
    ensures
        match failure {
            CreateUserFailure::Db(f) => if f.unique_violation {
                s.code == RpcCode::AlreadyExists && s.message@ == conflict_message()
            } else {
                s.code == RpcCode::Unknown && s.message@ == f.message@
            },
            CreateUserFailure::Hash(h) => s.code == RpcCode::Unknown && s.message@ == h.text_of(),
        },
{
    match failure {
        CreateUserFailure::Db(f) => update_profile_status(f),
        CreateUserFailure::Hash(h) => unknown_status(h.into_text()),
    }
}

/// The answer to a failed password change.
pub fn update_password_status(failure: UpdatePasswordFailure) -> (s: RpcStatus)
    ensures
        s.code == RpcCode::Unknown,
        failure matches UpdatePasswordFailure::Db(f) ==> s.message@ == f.message@,
        failure matches UpdatePasswordFailure::Change(PasswordChangeError::Mismatch) ==> s.message@ == mismatch_message(),
        failure matches UpdatePasswordFailure::Change(PasswordChangeError::Hash(h)) ==> s.message@ == h.text_of(),
{
    match failure {
        UpdatePasswordFailure::Db(f) => unknown_status(f.message),
        UpdatePasswordFailure::Change(PasswordChangeError::Mismatch) => unknown_status(String::from_str("passwords do not match")),
        UpdatePasswordFailure::Change(PasswordChangeError::Hash(h)) => unknown_status(h.into_text()),
    }
}

/// The answer to a failed login check.
pub fn verify_password_status(failure: VerifyPasswordFailure) -> (s: RpcStatus)
    ensures
        s.code == RpcCode::Unknown,
        failure matches VerifyPasswordFailure::Db(f) ==> s.message@ == f.message@,
        failure matches VerifyPasswordFailure::Hash(h) ==> s.message@ == h.text_of(),
{
    match failure {
        VerifyPasswordFailure::Db(f) => unknown_status(f.message),
        VerifyPasswordFailure::Hash(h) => unknown_status(h.into_text()),
    }
}

} // verus!
