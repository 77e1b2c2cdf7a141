use identity::service::{
    create_user_status, db_failure_status, unknown_status, update_password_status, update_profile_status,
    verify_password_status, CreateUserFailure, DbFailure, RpcCode, UpdatePasswordFailure, VerifyPasswordFailure,
};
use identity::password::{verify_password, HashFailure};
use identity::user_manager::PasswordChangeError;

fn failure(unique: bool) -> DbFailure {
    DbFailure { unique_violation: unique, message: "db said no".to_string() }
}

fn bcrypt_error() -> bcrypt::BcryptError {
    verify_password("x", "bad").unwrap_err()
}

fn hash_failure() -> HashFailure {
    HashFailure::from_error(bcrypt_error())
}

#[test]
fn unknown_status_keeps_message() {
    let s = unknown_status("boom".to_string());
    assert_eq!(s.code, RpcCode::Unknown);
    assert_eq!(s.message, "boom");
}

#[test]
fn read_failures_are_reported_as_they_are() {
    let s = db_failure_status(failure(true));
    assert_eq!(s.code, RpcCode::Unknown);
    assert_eq!(s.message, "db said no");
}

#[test]
fn profile_update_conflict() {
    let s = update_profile_status(failure(true));
    assert_eq!(s.code, RpcCode::AlreadyExists);
    assert_eq!(s.message, "Conflict");
    let s = update_profile_status(failure(false));
    assert_eq!(s.code, RpcCode::Unknown);
    assert_eq!(s.message, "db said no");
}

#[test]
fn create_user_conflict() {
    let s = create_user_status(CreateUserFailure::Db(failure(true)));
    assert_eq!(s.code, RpcCode::AlreadyExists);
    assert_eq!(s.message, "Conflict");
    let s = create_user_status(CreateUserFailure::Db(failure(false)));
    assert_eq!(s.code, RpcCode::Unknown);
    assert_eq!(s.message, "db said no");
}

#[test]
fn create_user_hash_failure() {
    let text = bcrypt_error().to_string();
    let s = create_user_status(CreateUserFailure::Hash(hash_failure()));
    assert_eq!(s.code, RpcCode::Unknown);
    assert_eq!(s.message, text);
}

#[test]
fn password_change_failures() {
    let s = update_password_status(UpdatePasswordFailure::Change(PasswordChangeError::Mismatch));
    assert_eq!(s.code, RpcCode::Unknown);
    assert_eq!(s.message, "passwords do not match");
    let s = update_password_status(UpdatePasswordFailure::Db(failure(true)));
    assert_eq!(s.code, RpcCode::Unknown);
    assert_eq!(s.message, "db said no");
    let s = update_password_status(UpdatePasswordFailure::Change(PasswordChangeError::Hash(hash_failure())));
    assert_eq!(s.code, RpcCode::Unknown);
    assert_eq!(s.message, bcrypt_error().to_string());
}

#[test]
fn login_failures() {
    let s = verify_password_status(VerifyPasswordFailure::Db(failure(false)));
    assert_eq!(s.code, RpcCode::Unknown);
    assert_eq!(s.message, "db said no");
    let s = verify_password_status(VerifyPasswordFailure::Hash(hash_failure()));
    assert_eq!(s.code, RpcCode::Unknown);
    assert_eq!(s.message, "Invalid hash: the hash format is malformed; expected 60 ASCII bytes");
}

#[test]
fn hash_failure_keeps_the_error_text() {
    let f = hash_failure();
    assert_eq!(f.text, f.error.to_string());
    assert!(!f.text.is_empty());
}
