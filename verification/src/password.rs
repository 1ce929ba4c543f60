//! Password hashing with Argon2, through the `argon2` crate.

use vstd::prelude::*;
use vstd::string::*;

use argon2::password_hash::rand_core::OsRng;
use argon2::password_hash::{Salt, SaltString};
use argon2::{Argon2, PasswordHash, PasswordHasher, PasswordVerifier};

verus! {

/// A character of the standard Base64 alphabet.
pub open spec fn is_b64_char(c: char) -> bool {
    ('A' <= c && c <= 'Z') || ('a' <= c && c <= 'z') || ('0' <= c && c <= '9') || c == '+' || c
        == '/'
}

/// The unpadded standard Base64 text of sixteen bytes: 22 characters of the
/// alphabet, the last of which carries only two bits (`A`, `Q`, `g` or `w`).
pub open spec fn is_b64_of_16_bytes(s: Seq<char>) -> bool {
    &&& s.len() == 22
    &&& forall|i: int| 0 <= i < s.len() ==> is_b64_char(#[trigger] s[i])
    &&& (s[21] == 'A' || s[21] == 'Q' || s[21] == 'g' || s[21] == 'w')
}

/// The longest password, in bytes, that Argon2 hashes.
pub open spec fn argon2_max_password_len() -> int {
    0xFFFF_FFFF
}

/// How a hash with the default Argon2 settings begins: the algorithm
/// (Argon2id), its version (19) and its parameters.
pub open spec fn argon2id_phc_prefix() -> Seq<char> {
    "$argon2id$v=19$m=19456,t=2,p=1$"@
}

/// `h` is a PHC string of the default Argon2 settings whose salt field is
/// `salt`: the settings' prefix, the salt, a `$`, and the hash output.
pub open spec fn is_argon2id_phc_with_salt(h: Seq<char>, salt: Seq<char>) -> bool {
    let n = argon2id_phc_prefix().len() as int;
    &&& h.len() > n + salt.len()
    &&& h.subrange(0, n) == argon2id_phc_prefix()
    &&& h.subrange(n, n + salt.len()) == salt
    &&& h[n + salt.len()] == '$'
}

/// `h` is a hash of the default settings whose salt is the B64 text of 16
/// bytes, as `generate_salt` makes them: never a password kept as given,
/// unless that password itself has this shape.
pub open spec fn is_salted_argon2id_hash(h: Seq<char>) -> bool {
    let n = argon2id_phc_prefix().len() as int;
    &&& h.len() >= n + 22
    &&& is_b64_of_16_bytes(h.subrange(n, n + 22))
    &&& is_argon2id_phc_with_salt(h, h.subrange(n, n + 22))
}

/// What checking `password` against the stored hash `hash` gives with the
/// default Argon2 settings: `None` when `hash` is not a PHC string that
/// `PasswordHash::new` accepts, otherwise whether `verify_password` accepts
/// the password.
pub uninterp spec fn argon2_verify_result(password: Seq<char>, hash: Seq<char>) -> Option<bool>;

/// Calls `SaltString::generate` with the operating system's random source
/// and hands the salt out as text. Claimed: the text is the B64 encoding of
/// 16 bytes (`generate` fills 16 random bytes and encodes them with
/// `encode_b64`). Which bytes is not claimed: they are random. It stops the
/// program only if the operating system's random source fails.
#[verifier::external_body]
pub(crate) fn generate_salt() -> (salt: String)
    ensures
        is_b64_of_16_bytes(salt@),
{
    SaltString::generate(&mut OsRng).as_str().to_owned()
}

/// Reads `salt` with `Salt::from_b64`, calls `Argon2::default().hash_password`
/// on the bytes of `password` with it, and writes the hash as a PHC string.
/// Claimed:
/// - a hash it returns is accepted, for the same password, by
///   `argon2_verify`: `verify_password` recomputes the hash with the
///   algorithm, version, parameters and salt that the PHC string records,
///   and compares the outputs;
/// - a hash it returns is the PHC string of the default settings with `salt`
///   as its salt field: `PasswordHash`'s `Display` writes `$argon2id`,
///   `$v=19`, `$m=19456,t=2,p=1` (the defaults of `Params`), `$` and the
///   salt as given, then `$` and the output;
/// - it succeeds when the salt is the B64 text of 16 bytes and the password
///   has at most `0xFFFF_FFFF` bytes: with the default parameters the only
///   other failures are salts that do not decode or decode to fewer than 8
///   bytes.
/// The error's text is not described.
#[verifier::external_body]
pub(crate) fn argon2_hash(password: &str, salt: &str) -> (r: Result<String, String>)
    ensures
        r matches Ok(h) ==> argon2_verify_result(password@, h@) == Some(true),
        r matches Ok(h) ==> is_argon2id_phc_with_salt(h@, salt@),
        password.spec_bytes().len() <= argon2_max_password_len() && is_b64_of_16_bytes(salt@)
            ==> r is Ok,
{
    match Salt::from_b64(salt) {
        Ok(salt) => match Argon2::default().hash_password(password.as_bytes(), salt) {
            Ok(hash) => Ok(hash.to_string()),
            Err(e) => Err(e.to_string()),
        },
        Err(e) => Err(e.to_string()),
    }
}

/// Parses `hash` with `PasswordHash::new` and, where it parses, checks the
/// bytes of `password` against it with `Argon2::default().verify_password`.
/// Claimed: the result is `argon2_verify_result` of the two strings.
#[verifier::external_body]
pub(crate) fn argon2_verify(password: &str, hash: &str) -> (r: Option<bool>)
    ensures
        r == argon2_verify_result(password@, hash@),
{
    match PasswordHash::new(hash) {
        Ok(parsed) => Some(Argon2::default().verify_password(password.as_bytes(), &parsed).is_ok()),
        Err(_) => None,
    }
}

} // verus!
