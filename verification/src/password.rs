//! Password hashing and checking with bcrypt.

use vstd::prelude::*;
use vstd::utf8::{valid_utf8, decode_utf8, valid_first_scalar, decode_first_scalar, pop_first_scalar};
use bcrypt::BcryptError;

verus! {

/// bcrypt's error type, carried through unchanged.
#[verifier::external_type_specification]
#[verifier::external_body]
pub struct ExBcryptError(bcrypt::BcryptError);

/// What `bcrypt::verify` answers for a password and a stored hash text:
/// `Some(matches)` when it returns `Ok(matches)`, `None` when it returns an error.
pub uninterp spec fn bcrypt_verify_outcome(password: Seq<char>, hash: Seq<char>) -> Option<bool>;

/// Whether every byte is a 7-bit ASCII byte.
pub open spec fn ascii_bytes(b: Seq<u8>) -> bool {
    forall|i: int| 0 <= i < b.len() ==> #[trigger] b[i] < 128
}

/// Whether every character is a 7-bit ASCII character.
pub open spec fn ascii_chars(s: Seq<char>) -> bool {
    forall|i: int| 0 <= i < s.len() ==> (#[trigger] s[i] as int) < 128
}

/// The byte layout of a bcrypt hash of version 2b and cost 12: sixty ASCII
/// bytes that start with `$2b$12$`.
pub open spec fn bcrypt_cost12_bytes(h: Seq<u8>) -> bool {
    &&& h.len() == 60
    &&& ascii_bytes(h)
    &&& h[0] == 36 && h[1] == 50 && h[2] == 98 && h[3] == 36
    &&& h[4] == 49 && h[5] == 50 && h[6] == 36
}

/// The text of a bcrypt hash of version 2b and cost 12: sixty ASCII
/// characters that start with `$2b$12$`.
pub open spec fn bcrypt_cost12_text(h: Seq<char>) -> bool {
    &&& h.len() == 60
    &&& ascii_chars(h)
    &&& h[0] == '$' && h[1] == '2' && h[2] == 'b' && h[3] == '$'
    &&& h[4] == '1' && h[5] == '2' && h[6] == '$'
}

/// A hash that this library issues for `password`: bcrypt text of cost 12
/// against which `password` verifies.
pub open spec fn issued_for(password: Seq<char>, hash: Seq<char>) -> bool {
    &&& bcrypt_cost12_text(hash)
    &&& bcrypt_verify_outcome(password, hash) == Some(true)
}

/// The verdict that a call of `verify_password` returned, with its error left out.
pub open spec fn verdict<E>(r: Result<bool, E>) -> Option<bool> {
    match r {
        Ok(b) => Some(b),
        Err(_) => None,
    }
}

/// Calls `bcrypt::hash_bytes` with `bcrypt::DEFAULT_COST` (12).
/// The salt is drawn from the operating system, so the result is not a function
/// of the password, and an error can come at any call. What bcrypt's source
/// shows of every `Ok`: sixty ASCII bytes in the version 2b layout
/// `$2b$12$` + 22 salt characters + 31 hash characters, and `bcrypt::verify`
/// with the same password accepts the text (it reads the cost and salt back out
/// of it and recomputes the same digest).
#[verifier::external_body]
fn bcrypt_hash_bytes(password: &str) -> (r: Result<Vec<u8>, BcryptError>)
    ensures
        r matches Ok(h) ==> bcrypt_cost12_bytes(h@),
        r matches Ok(h) ==> bcrypt_verify_outcome(password@, decode_utf8(h@)) == Some(true),
{
    bcrypt::hash_bytes(password, bcrypt::DEFAULT_COST).map(|h| h.to_vec())
}

/// Calls `bcrypt::verify`. Its answer is a function of the password and the
/// hash text alone, named `bcrypt_verify_outcome`. bcrypt's source also shows
/// that a hash text that is not sixty ASCII bytes is refused with an error; a
/// text that is not sixty characters long is never that.
#[verifier::external_body]
fn bcrypt_verify(password: &str, hash: &str) -> (r: Result<bool, BcryptError>)
    ensures
        verdict(r) == bcrypt_verify_outcome(password@, hash@),
        hash@.len() != 60 ==> r is Err,
{
    bcrypt::verify(password, hash)
}

/// Calls `std::str::from_utf8` and copies the text it gives into a `String`.
#[verifier::external_body]
fn utf8_text(bytes: &[u8]) -> (r: Option<String>)
    ensures
        r is Some <==> valid_utf8(bytes@),
        r matches Some(s) ==> s@ == decode_utf8(bytes@),
{
    std::str::from_utf8(bytes).ok().map(|s| s.to_string())
}

/// Calls `to_string` on a bcrypt error, that is its `Display` text. bcrypt's
/// source writes a non-empty text for every variant ("Cost needs to be
/// between ...", "Invalid hash: ...", "Rand error: ...", "Expected 72 bytes or
/// fewer; ..."); which text, and what it holds beyond that, is not stated, as
/// the error is opaque here.
#[verifier::external_body]
pub(crate) fn bcrypt_error_text(e: &BcryptError) -> (s: String)
    ensures
        s@.len() > 0,
{
    e.to_string()
}

/// A bcrypt failure together with its text, as the failure is reported, and
/// whether it was raised while hashing a password (bcrypt could not draw a
/// salt) rather than while checking one.
#[derive(Debug)]
pub struct HashFailure {
    pub error: BcryptError,
    pub text: String,
    while_hashing: bool,
}

impl HashFailure {
    /// Whether the failure was raised by hashing a password. Only
    /// `hash_new_password` gives such a failure.
    pub closed spec fn raised_while_hashing(self) -> bool {
        self.while_hashing
    }

    /// bcrypt's error.
    pub closed spec fn error_of(self) -> BcryptError {
        self.error
    }

    /// The text the failure is reported with.
    pub closed spec fn text_of(self) -> Seq<char> {
        self.text@
    }

    /// The text the failure is reported with.
    pub fn into_text(self) -> (t: String)
        ensures
            t@ == self.text_of(),
    {
        self.text
    }

    /// Keeps `error` with its `Display` text, as a failure of checking a password.
    pub fn from_error(error: BcryptError) -> (f: HashFailure)
        ensures
            f.error_of() == error,
            f.text_of().len() > 0,
            !f.raised_while_hashing(),
    {
        let text = bcrypt_error_text(&error);
        HashFailure { error, text, while_hashing: false }
    }

    /// Keeps `error` with its `Display` text, as a failure of hashing a password.
    fn from_hashing_error(error: BcryptError) -> (f: HashFailure)
        ensures
            f.error_of() == error,
            f.text_of().len() > 0,
            f.raised_while_hashing(),
    {
        let text = bcrypt_error_text(&error);
        HashFailure { error, text, while_hashing: true }
    }

    /// Whether the failure was raised by hashing a password.
    pub fn is_hashing_failure(&self) -> (b: bool)
        ensures
            b == self.raised_while_hashing(),
    {
        self.while_hashing
    }
}

/// ASCII bytes are valid UTF-8 and decode one character per byte.
proof fn lemma_ascii_decodes(b: Seq<u8>)
    requires
        ascii_bytes(b),
    ensures
        valid_utf8(b),
        decode_utf8(b).len() == b.len(),
        forall|i: int| 0 <= i < b.len() ==> #[trigger] decode_utf8(b)[i] as int == b[i] as int,
    decreases b.len(),
{
    if b.len() > 0 {
        let b0 = b[0];
        assert(b0 < 128);
        assert(b0 & 0x7f == b0) by (bit_vector)
            requires
                b0 < 128u8,
        ;
        assert(valid_first_scalar(b));
        assert(decode_first_scalar(b) == b0 as u32);
        let rest = pop_first_scalar(b);
        assert(rest =~= b.subrange(1, b.len() as int));
        assert forall|i: int| 0 <= i < rest.len() implies #[trigger] rest[i] < 128 by {
            assert(rest[i] == b[i + 1]);
        };
        lemma_ascii_decodes(rest);
        let d = decode_utf8(b);
        assert(d == seq![decode_first_scalar(b) as char] + decode_utf8(rest));
        assert forall|i: int| 0 <= i < b.len() implies #[trigger] decode_utf8(b)[i] as int == b[i] as int by {
            if i > 0 {
                assert(d[i] == decode_utf8(rest)[i - 1]);
                assert(rest[i - 1] == b[i]);
            }
        };
    }
}

/// Turns what bcrypt's hashing returned into text: the bytes decoded as
/// UTF-8, or bcrypt's error unchanged.
pub fn hash_text(hashed: Result<Vec<u8>, BcryptError>) -> (r: Result<String, BcryptError>)
    requires
        hashed matches Ok(h) ==> valid_utf8(h@),
    ensures
        match hashed {
            Ok(h) => r matches Ok(t) && t@ == decode_utf8(h@),
            Err(e) => r == Err::<String, BcryptError>(e),
        },
{
    match hashed {
        Ok(bytes) => match utf8_text(bytes.as_slice()) {
            Some(text) => Ok(text),
            None => vstd::pervasive::unreached(),
        },
        Err(e) => Err(e),
    }
}

/// The text of the bcrypt bytes of cost 12 is bcrypt text of cost 12.
proof fn lemma_cost12_text(bytes: Seq<u8>)
    requires
        bcrypt_cost12_bytes(bytes),
    ensures
        valid_utf8(bytes),
        bcrypt_cost12_text(decode_utf8(bytes)),
{
    lemma_ascii_decodes(bytes);
    let d = decode_utf8(bytes);
    assert forall|i: int| 0 <= i < d.len() implies (#[trigger] d[i] as int) < 128 by {
        assert(d[i] as int == bytes[i] as int);
    };
    assert(d[0] as int == 36);
    assert(d[1] as int == 50);
    assert(d[2] as int == 98);
    assert(d[3] as int == 36);
    assert(d[4] as int == 49);
    assert(d[5] as int == 50);
    assert(d[6] as int == 36);
}

/// Hashes `password` with bcrypt at the default cost, as text.
pub fn hash_password(password: &str) -> (r: Result<String, BcryptError>)
    ensures
        r matches Ok(h) ==> issued_for(password@, h@),
{
    let hashed = bcrypt_hash_bytes(password);
    let ghost outcome = hashed;
    proof {
        if let Ok(h) = outcome {
            lemma_cost12_text(h@);
        }
    }
    hash_text(hashed)
}

/// Hashes a password that is to be stored; a failure is reported as one of
/// hashing, carrying bcrypt's error and its text.
pub fn hash_new_password(password: &str) -> (r: Result<String, HashFailure>)
    ensures
        r matches Ok(h) ==> issued_for(password@, h@),
        r matches Err(f) ==> f.raised_while_hashing(),
{
    match hash_password(password) {
        Ok(h) => Ok(h),
        Err(e) => Err(HashFailure::from_hashing_error(e)),
    }
}

/// Checks `password` against a stored bcrypt hash text.
pub fn verify_password(password: &str, password_hash: &str) -> (r: Result<bool, BcryptError>)
    ensures
        verdict(r) == bcrypt_verify_outcome(password@, password_hash@),
        password_hash@.len() != 60 ==> r is Err,
{
    bcrypt_verify(password, password_hash)
}

} // verus!
