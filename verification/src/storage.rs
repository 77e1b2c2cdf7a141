//! The object store's side of the images: the keys new objects are stored
//! under, and what to do with the bucket found (or not) at start-up.

use vstd::prelude::*;
use crate::user_manager::opt_view;

verus! {

/// Whether `c` is a lower-case hexadecimal digit.
pub open spec fn lower_hex(c: char) -> bool {
    ('0' <= c <= '9') || ('a' <= c <= 'f')
}

/// Whether `s` is the hyphenated lower-case text of a random (version 4,
/// RFC 4122 variant) UUID, such as `67e55044-10b1-426f-9247-bb680e5fe0c8`.
pub open spec fn uuid_v4_text(s: Seq<char>) -> bool {
    &&& s.len() == 36
    &&& forall|i: int| 0 <= i < 36 ==> (if i == 8 || i == 13 || i == 18 || i == 23 {
            #[trigger] s[i] == '-'
        } else {
            lower_hex(s[i])
        })
    &&& s[14] == '4'
    &&& (s[19] == '8' || s[19] == '9' || s[19] == 'a' || s[19] == 'b')
}

/// Whether `j` is one of the positions of a hyphen in UUID text.
pub open spec fn hyphen_position(j: int) -> bool {
    j == 8 || j == 13 || j == 18 || j == 23
}

/// How many hyphens stand before position `j` of UUID text.
pub open spec fn hyphens_before(j: int) -> int {
    (if j > 8 { 1int } else { 0int }) + (if j > 13 { 1int } else { 0int }) + (if j > 18 { 1int } else { 0int }) + (if j > 23 {
        1int
    } else {
        0int
    })
}

/// Byte `i` of a version 4 UUID built from the random bytes `b`: byte 6 gets
/// the version nibble 4 (`(b[6] & 0x0f) | 0x40`), byte 8 the RFC 4122 variant
/// bits `10` (`(b[8] & 0x3f) | 0x80`), and the others stay as drawn.
pub open spec fn v4_byte(b: Seq<u8>, i: int) -> int {
    if i == 6 {
        b[6] % 16 + 64
    } else if i == 8 {
        b[8] % 64 + 128
    } else {
        b[i] as int
    }
}

/// The lower-case hexadecimal digit of `n` (0 to 15).
pub open spec fn hex_digit(n: int) -> char {
    if n < 10 {
        (('0' as int) + n) as char
    } else {
        (('a' as int) + n - 10) as char
    }
}

/// The `k`-th hexadecimal digit (0 to 31) of the UUID built from `b`, high nibble first.
pub open spec fn uuid_nibble(b: Seq<u8>, k: int) -> int {
    if k % 2 == 0 {
        v4_byte(b, k / 2) / 16
    } else {
        v4_byte(b, k / 2) % 16
    }
}

/// The hyphenated lower-case text of the version 4 UUID built from the
/// sixteen random bytes `b`, groups of 8-4-4-4-12 digits.
pub open spec fn uuid_text_from_random(b: Seq<u8>) -> Seq<char> {
    Seq::new(36, |j: int| if hyphen_position(j) { '-' } else { hex_digit(uuid_nibble(b, j - hyphens_before(j))) })
}

/// Calls `getrandom::fill` on sixteen bytes: `Some` of them when the system's
/// random source filled them, `None` when it failed. What the bytes are is not
/// stated; they are random.
#[verifier::external_body]
fn os_random_bytes() -> (r: Option<[u8; 16]>) {
    let mut bytes = [0u8; 16];
    getrandom::fill(&mut bytes).ok().map(|_| bytes)
}

/// Calls `uuid::Builder::from_random_bytes`, takes the UUID and renders it with
/// `to_string`: uuid's source sets the version and variant bits as
/// `v4_byte` says and writes the hyphenated lower-case form.
#[verifier::external_body]
fn uuid_from_random_bytes(bytes: [u8; 16]) -> (s: String)
    ensures
        s@ == uuid_text_from_random(bytes@),
{
    uuid::Builder::from_random_bytes(bytes).into_uuid().to_string()
}

/// The text of a UUID built from random bytes is the text of a random UUID.
pub proof fn lemma_random_uuid_text(b: Seq<u8>)
    requires
        b.len() == 16,
    ensures
        uuid_v4_text(uuid_text_from_random(b)),
{
    let s = uuid_text_from_random(b);
    assert forall|j: int| 0 <= j < 36 implies (if j == 8 || j == 13 || j == 18 || j == 23 {
        #[trigger] s[j] == '-'
    } else {
        lower_hex(s[j])
    }) by {
        if !hyphen_position(j) {
            let k = j - hyphens_before(j);
            assert(0 <= k < 32);
            let v = v4_byte(b, k / 2);
            assert(0 <= v < 256);
            let n = uuid_nibble(b, k);
            assert(0 <= n < 16);
        }
    };
    assert(v4_byte(b, 6) / 16 == 4);
    assert(s[14] == hex_digit(uuid_nibble(b, 12)));
    let v8 = v4_byte(b, 8);
    assert(128 <= v8 < 192);
    assert(8 <= v8 / 16 < 12);
    assert(s[19] == hex_digit(uuid_nibble(b, 16)));
}

/// The key of an avatar whose UUID is built from the random bytes `bytes`.
pub fn avatar_key_from(bytes: [u8; 16]) -> (key: String)
    ensures
        key@ == uuid_text_from_random(bytes@),
        uuid_v4_text(key@),
{
    proof {
        lemma_random_uuid_text(bytes@);
    }
    uuid_from_random_bytes(bytes)
}

/// A fresh key for a user's avatar image: a random UUID, or `None` when the
/// system's random source fails.
pub fn new_avatar_key() -> (key: Option<String>)
    ensures
        key matches Some(k) ==> uuid_v4_text(k@),
{
    match os_random_bytes() {
        Some(bytes) => Some(avatar_key_from(bytes)),
        None => None,
    }
}

/// The key of an asset with identifier `id` and type `mime_type`: `id.mime_type`.
pub fn asset_key(id: &str, mime_type: &str) -> (key: String)
    ensures
        key@ == id@ + "."@ + mime_type@,
{
    let mut key = String::from_str(id);
    key.append(".");
    key.append(mime_type);
    key
}

/// The key of an asset of type `mime_type` whose UUID is built from the random
/// bytes `bytes`.
pub fn asset_key_from(bytes: [u8; 16], mime_type: &str) -> (key: String)
    ensures
        key@ == uuid_text_from_random(bytes@) + "."@ + mime_type@,
{
    let id = uuid_from_random_bytes(bytes);
    asset_key(id.as_str(), mime_type)
}

/// A fresh key for an asset of type `mime_type`: a random UUID, a dot, and the
/// type; `None` when the system's random source fails.
pub fn new_asset_key(mime_type: &str) -> (key: Option<String>)
    ensures
        key matches Some(k) ==> {
            &&& k@.len() == 37 + mime_type@.len()
            &&& uuid_v4_text(k@.subrange(0, 36))
            &&& k@[36] == '.'
            &&& k@.subrange(37, k@.len() as int) == mime_type@
        },
{
    match os_random_bytes() {
        Some(bytes) => {
            let key = asset_key_from(bytes, mime_type);
            proof {
                lemma_random_uuid_text(bytes@);
                reveal_strlit(".");
                assert(key@.subrange(0, 36) =~= uuid_text_from_random(bytes@));
                assert(key@.subrange(37, key@.len() as int) =~= mime_type@);
            }
            Some(key)
        },
        None => None,
    }
}

/// Whether one of the listed bucket names is `bucket`.
pub open spec fn lists_bucket(names: Seq<Option<String>>, bucket: Seq<char>) -> bool {
    exists|i: int| 0 <= i < names.len() && opt_view(#[trigger] names[i]) == Some(bucket)
}

/// Whether the bucket called `bucket` is among those the store listed.
pub fn bucket_listed(names: &Vec<Option<String>>, bucket: &str) -> (found: bool)
    ensures
        found == lists_bucket(names@, bucket@),
        forall|i: int| 0 <= i < names@.len() && opt_view(#[trigger] names@[i]) == Some(bucket@) ==> found,
        found ==> exists|i: int| 0 <= i < names@.len() && opt_view(#[trigger] names@[i]) == Some(bucket@),
{
    let wanted = String::from_str(bucket);
    let mut i: usize = 0;
    while i < names.len()
        invariant
            i <= names.len(),
            wanted@ == bucket@,
            forall|j: int| 0 <= j < i ==> opt_view(#[trigger] names@[j]) != Some(bucket@),
        decreases names.len() - i,
    {
        match &names[i] {
            Some(name) => {
                if *name == wanted {
                    return true;
                }
            },
            None => {},
        }
        i = i + 1;
    }
    false
}

/// A bucket is listed when any position of the list holds its name, wherever
/// that position is, and only then.
pub proof fn lemma_listed_at_any_position(names: Seq<Option<String>>, bucket: Seq<char>, i: int)
    ensures
        0 <= i < names.len() && opt_view(names[i]) == Some(bucket) ==> lists_bucket(names, bucket),
        (forall|j: int| 0 <= j < names.len() ==> opt_view(#[trigger] names[j]) != Some(bucket)) ==> !lists_bucket(names, bucket),
{
}

/// What to do with the image bucket at start-up.
#[derive(Debug, Clone, Copy, PartialEq, Eq)]
pub enum BucketAction {
    /// The bucket is there already.
    UseExisting,
    /// The bucket is missing and is to be created.
    Create,
}

/// The avatar store creates its bucket when the store does not list it.
pub fn avatar_bucket_action(names: &Vec<Option<String>>, bucket: &str) -> (action: BucketAction)
    ensures
        action == (if lists_bucket(names@, bucket@) { BucketAction::UseExisting } else { BucketAction::Create }),
{
    if bucket_listed(names, bucket) {
        BucketAction::UseExisting
    } else {
        BucketAction::Create
    }
}

/// The message that the asset store stops with when its bucket is missing:
/// `Bucket <name> does not exist`.
pub fn missing_bucket_message(bucket: &str) -> (msg: String)
    ensures
        msg@ == "Bucket "@ + bucket@ + " does not exist"@,
{
    let mut msg = String::from_str("Bucket ");
    msg.append(bucket);
    msg.append(" does not exist");
    msg
}

} // verus!
