use identity::password::{hash_password, hash_text, verify_password};

const PYTHON_HASH: &str = "$2b$04$EGdrhbKUv8Oc9vGiXX0HQOxSg445d458Muh7DAHskb6QbtCvdxcie";

#[test]
fn hash_then_verify_round_trip() {
    let h = hash_password("hunter2").unwrap();
    assert_eq!(h.len(), 60);
    assert!(h.starts_with("$2b$12$"));
    assert!(h.is_ascii());
    assert_eq!(verify_password("hunter2", &h).unwrap(), true);
    assert_eq!(verify_password("hunter3", &h).unwrap(), false);
}

#[test]
fn hashes_of_one_password_differ() {
    let a = hash_password("same").unwrap();
    let b = hash_password("same").unwrap();
    assert_ne!(a, b);
}

#[test]
fn verify_known_hash() {
    assert_eq!(verify_password("correctbatteryhorsestapler", PYTHON_HASH).unwrap(), true);
    assert_eq!(verify_password("wrong", PYTHON_HASH).unwrap(), false);
}

#[test]
fn verify_rejects_malformed_hash() {
    assert!(verify_password("x", "not-a-hash").is_err());
    assert!(verify_password("x", "").is_err());
    assert!(verify_password("x", "!2y$12$L6Bc/AlTQHyd9liGgGEZyOFLPHNgyxeEPfgYfBCVxJ7JIlwxyVU3u").is_err());
}

#[test]
fn hash_text_decodes_bytes_and_passes_errors() {
    let bytes = PYTHON_HASH.as_bytes().to_vec();
    assert_eq!(hash_text(Ok(bytes)).unwrap(), PYTHON_HASH);
    let e = verify_password("x", "bad").unwrap_err();
    let text = e.to_string();
    assert_eq!(hash_text(Err(e)).unwrap_err().to_string(), text);
}
