use identity::password::verify_password;
use identity::user_manager::{
    check_login, check_password_change, new_user_from_hash, new_user_record, prepare_new_user, CreateUserData, FullProfile,
    PasswordChangeError, Profile, ProfileMetadata,
};

const PYTHON_HASH: &str = "$2b$04$EGdrhbKUv8Oc9vGiXX0HQOxSg445d458Muh7DAHskb6QbtCvdxcie";
const PYTHON_PASSWORD: &str = "correctbatteryhorsestapler";

fn signup() -> CreateUserData {
    CreateUserData {
        username: "ada".to_string(),
        email: "ada@example.com".to_string(),
        password: "analytical".to_string(),
        first_name: Some("Ada".to_string()),
        last_name: None,
    }
}

#[test]
fn new_user_record_copies_the_data() {
    let row = new_user_record(&signup(), "HASH".to_string());
    assert_eq!(row.username, "ada");
    assert_eq!(row.email, "ada@example.com");
    assert_eq!(row.password_hash, "HASH");
    assert_eq!(row.first_name, Some("Ada".to_string()));
    assert_eq!(row.last_name, None);
}

#[test]
fn prepare_new_user_hashes_the_password() {
    let data = signup();
    let row = prepare_new_user(&data).unwrap();
    assert_eq!(row.username, data.username);
    assert_eq!(row.email, data.email);
    assert_ne!(row.password_hash, data.password);
    assert!(row.password_hash.starts_with("$2b$12$"));
    assert_eq!(verify_password("analytical", &row.password_hash).unwrap(), true);
}

#[test]
fn password_change_with_right_old_password() {
    let h = check_password_change(PYTHON_HASH, PYTHON_PASSWORD, "newpass").ok().unwrap();
    assert!(h.starts_with("$2b$12$"));
    assert_eq!(verify_password("newpass", &h).unwrap(), true);
    // the stored hash now lets the new password through the next change
    assert!(matches!(check_password_change(&h, "other", "x"), Err(PasswordChangeError::Mismatch)));
}

#[test]
fn password_change_with_wrong_old_password() {
    assert!(matches!(check_password_change(PYTHON_HASH, "wrong", "newpass"), Err(PasswordChangeError::Mismatch)));
}

#[test]
fn password_change_with_malformed_stored_hash() {
    assert!(matches!(check_password_change("garbage", PYTHON_PASSWORD, "newpass"), Err(PasswordChangeError::Hash(_))));
}

#[test]
fn login_answers_the_user_id() {
    assert_eq!(check_login(42, PYTHON_PASSWORD, PYTHON_HASH).unwrap(), 42);
}

#[test]
fn login_answers_the_user_id_whatever_the_password() {
    assert_eq!(check_login(7, "not the password", PYTHON_HASH).unwrap(), 7);
}

#[test]
fn login_fails_on_malformed_hash() {
    assert!(check_login(7, PYTHON_PASSWORD, "short").is_err());
}

#[test]
fn profile_records() {
    let p = Profile { user_id: 1, username: "a".to_string(), avatar_url: None };
    assert_eq!(p.clone(), p);
    let f = FullProfile {
        user_id: 1,
        username: "a".to_string(),
        avatar_url: Some("k".to_string()),
        first_name: None,
        last_name: None,
        bio: Some("hi".to_string()),
        country: None,
        city: None,
    };
    assert_eq!(f.bio.as_deref(), Some("hi"));
    let m = ProfileMetadata {
        username: "a".to_string(),
        email: "a@b".to_string(),
        first_name: None,
        last_name: None,
        bio: None,
        country: None,
        city: None,
    };
    assert_eq!(m.clone(), m);
}

#[test]
fn new_user_from_hash_builds_row_or_passes_error() {
    let row = new_user_from_hash(&signup(), Ok("H".to_string())).unwrap();
    assert_eq!(row.password_hash, "H");
    assert_eq!(row.username, "ada");
    assert_eq!(row.first_name, Some("Ada".to_string()));
    let e = verify_password("x", "bad").unwrap_err();
    let text = e.to_string();
    assert_eq!(new_user_from_hash(&signup(), Err(e)).unwrap_err().to_string(), text);
}
