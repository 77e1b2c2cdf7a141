use identity::storage::{
    asset_key, asset_key_from, avatar_bucket_action, avatar_key_from, bucket_listed, missing_bucket_message,
    new_asset_key, new_avatar_key, BucketAction,
};

fn is_uuid_v4(s: &str) -> bool {
    let b: Vec<char> = s.chars().collect();
    if b.len() != 36 {
        return false;
    }
    for (i, c) in b.iter().enumerate() {
        let ok = if i == 8 || i == 13 || i == 18 || i == 23 {
            *c == '-'
        } else {
            c.is_ascii_digit() || ('a'..='f').contains(c)
        };
        if !ok {
            return false;
        }
    }
    b[14] == '4' && matches!(b[19], '8' | '9' | 'a' | 'b')
}

#[test]
fn avatar_keys_are_random_uuids() {
    let a = new_avatar_key().unwrap();
    let b = new_avatar_key().unwrap();
    assert!(is_uuid_v4(&a));
    assert!(is_uuid_v4(&b));
    assert_ne!(a, b);
}

#[test]
fn asset_key_is_id_dot_type() {
    assert_eq!(asset_key("abc", "png"), "abc.png");
    assert_eq!(asset_key("", ""), ".");
}

#[test]
fn new_asset_key_has_uuid_and_type() {
    let k = new_asset_key("jpeg").unwrap();
    assert_eq!(k.len(), 41);
    assert!(is_uuid_v4(&k[..36]));
    assert_eq!(&k[36..], ".jpeg");
}

#[test]
fn bucket_listed_finds_name() {
    let names = vec![None, Some("other".to_string()), Some("images".to_string())];
    assert!(bucket_listed(&names, "images"));
    assert!(!bucket_listed(&names, "image"));
    assert!(!bucket_listed(&vec![], "images"));
}

#[test]
fn avatar_bucket_is_created_when_missing() {
    let names = vec![Some("images".to_string())];
    assert_eq!(avatar_bucket_action(&names, "images"), BucketAction::UseExisting);
    assert_eq!(avatar_bucket_action(&names, "avatars"), BucketAction::Create);
    assert_eq!(avatar_bucket_action(&vec![None], "avatars"), BucketAction::Create);
}

#[test]
fn missing_bucket_message_names_the_bucket() {
    assert_eq!(missing_bucket_message("assets"), "Bucket assets does not exist");
}

#[test]
fn avatar_key_from_known_bytes() {
    let bytes: [u8; 16] = [0, 1, 2, 3, 4, 5, 6, 7, 8, 9, 10, 11, 12, 13, 14, 15];
    assert_eq!(avatar_key_from(bytes), "00010203-0405-4607-8809-0a0b0c0d0e0f");
    let ones = [0xffu8; 16];
    assert_eq!(avatar_key_from(ones), "ffffffff-ffff-4fff-bfff-ffffffffffff");
    assert!(is_uuid_v4(&avatar_key_from(ones)));
}

#[test]
fn asset_key_from_known_bytes() {
    let zeros = [0u8; 16];
    assert_eq!(asset_key_from(zeros, "png"), "00000000-0000-4000-8000-000000000000.png");
}
