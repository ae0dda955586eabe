//! Password hashing and random tokens, delegated to `argon2` and `rand`.
//!
//! The functions marked `external_body` call those crates; their contracts
//! restate what the crates do and are taken as given.

use argon2::password_hash::{PasswordHash, PasswordHasher, PasswordVerifier, Salt, SaltString};
use argon2::Argon2;
use rand::distributions::{Alphanumeric, DistString};
use rand_core::OsRng;
use vstd::prelude::*;

verus! {

/// Whether `PasswordHash::new` of `password-hash` accepts `phc` as a PHC string.
pub uninterp spec fn phc_well_formed(phc: Seq<char>) -> bool;

/// Whether `Argon2::default().verify_password(password, &hash)` succeeds,
/// where `hash` is `phc` parsed by `PasswordHash::new`.
pub uninterp spec fn argon2_verifies(password: Seq<u8>, phc: Seq<char>) -> bool;

/// The PHC string that `Argon2::default().hash_password(password, salt)`
/// produces for the B64 salt `salt`, or `None` where it fails.
pub uninterp spec fn argon2_hash(password: Seq<u8>, salt: Seq<char>) -> Option<Seq<char>>;

/// The UTF-8 bytes of a character sequence.
pub open spec fn utf8(s: Seq<char>) -> Seq<u8> {
    vstd::utf8::encode_utf8(s)
}

/// The view of an optional string.
pub open spec fn opt_view(o: Option<String>) -> Option<Seq<char>> {
    match o {
        Some(s) => Some(s@),
        None => None,
    }
}

/// A character of the B64 alphabet (standard Base64 without padding).
pub open spec fn is_b64_char(c: char) -> bool {
    ('A' <= c && c <= 'Z') || ('a' <= c && c <= 'z') || ('0' <= c && c <= '9') || c == '+' || c == '/'
}

/// An ASCII letter or digit.
pub open spec fn is_ascii_alphanumeric(c: char) -> bool {
    ('A' <= c && c <= 'Z') || ('a' <= c && c <= 'z') || ('0' <= c && c <= '9')
}

/// Number of characters in a salt made by `generate_salt`: 16 random bytes in B64.
pub const SALT_LEN: usize = 22;

/// Longest password, in bytes, that Argon2 hashes.
pub const MAX_PASSWORD_BYTES: u64 = 0xFFFF_FFFF;

/// A salt of 22 B64 characters that is the canonical encoding of 16 bytes:
/// its last character carries two data bits and four zero bits, so it is
/// one of `A`, `Q`, `g`, `w`.
pub open spec fn is_canonical_salt16(salt: Seq<char>) -> bool {
    &&& salt.len() == SALT_LEN
    &&& forall|i: int| 0 <= i < salt.len() ==> is_b64_char(#[trigger] salt[i])
    &&& salt.last() == 'A' || salt.last() == 'Q' || salt.last() == 'g' || salt.last() == 'w'
}

/// Calls `PasswordHash::new` of `password-hash` and reports whether it
/// parses `phc`: the answer is `phc_well_formed(phc)`. The parser refuses
/// an empty string and one that does not begin with `$`.
#[verifier::external_body]
pub(crate) fn parses_as_password_hash(phc: &str) -> (ok: bool)
    ensures
        ok == phc_well_formed(phc@),
        ok ==> phc@.len() > 0 && phc@[0] == '$',
{
    PasswordHash::new(phc).is_ok()
}

/// Parses `phc` with `PasswordHash::new` and checks `password` against it
/// with `Argon2::default().verify_password`: the answer is
/// `argon2_verifies(password, phc)`.
#[verifier::external_body]
pub(crate) fn verify_password_against(password: &[u8], phc: &str) -> (ok: bool)
    requires
        phc_well_formed(phc@),
    ensures
        ok == argon2_verifies(password@, phc@),
{
    match PasswordHash::new(phc) {
        Ok(hash) => Argon2::default().verify_password(password, &hash).is_ok(),
        Err(_) => false,
    }
}

/// Hashes `password` with `Argon2::default().hash_password` under the B64
/// salt `salt` (read by `Salt::from_b64`) and renders the result as a PHC
/// string. The result is `argon2_hash(password, salt)`. A string that comes
/// back begins with `$`, parses with `PasswordHash::new` (the PHC rendering
/// is the inverse of the parser), and `verify_password` accepts `password`
/// against it (verification recomputes the hash with the algorithm,
/// version, parameters and salt recorded in the string). Hashing fails only
/// where the salt does not decode, decodes to fewer than 8 or more than 64
/// bytes, or the password is longer than `MAX_PASSWORD_BYTES`; so a
/// canonical 16-byte salt and a password within that bound give a hash, and
/// a longer password gives none.
#[verifier::external_body]
pub(crate) fn hash_password_with_salt(password: &[u8], salt: &str) -> (hash: Option<String>)
    ensures
        opt_view(hash) == argon2_hash(password@, salt@),
        hash matches Some(h) ==> phc_well_formed(h@) && argon2_verifies(password@, h@),
        hash matches Some(h) ==> h@.len() > 0 && h@[0] == '$',
        is_canonical_salt16(salt@) && password@.len() <= MAX_PASSWORD_BYTES ==> hash is Some,
        password@.len() > MAX_PASSWORD_BYTES ==> hash is None,
{
    match Salt::from_b64(salt) {
        Ok(salt) => match Argon2::default().hash_password(password, salt) {
            Ok(hash) => Some(hash.to_string()),
            Err(_) => None,
        },
        Err(_) => None,
    }
}

/// Calls `SaltString::generate(&mut OsRng)`: 16 bytes from the operating
/// system's random source, encoded as unpadded standard B64, which gives a
/// canonical 22-character salt. Which bytes is chance; `OsRng` panics where
/// the operating system gives no randomness.
#[verifier::external_body]
pub(crate) fn generate_salt() -> (salt: String)
    ensures
        is_canonical_salt16(salt@),
{
    SaltString::generate(&mut OsRng).as_str().to_owned()
}

/// Calls `Alphanumeric.sample_string(&mut OsRng, len)` of `rand`: `len`
/// characters, each an ASCII letter or digit. Which ones is chance;
/// `OsRng` panics where the operating system gives no randomness.
#[verifier::external_body]
pub(crate) fn sample_alphanumeric(len: usize) -> (token: String)
    ensures
        token@.len() == len,
        forall|i: int| 0 <= i < token@.len() ==> is_ascii_alphanumeric(#[trigger] token@[i]),
{
    Alphanumeric.sample_string(&mut OsRng, len)
}

} // verus!
