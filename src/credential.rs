//! One-way hashing of transfer PINs with Argon2 and a fresh random salt.

use vstd::prelude::*;
use argon2::{Argon2, PasswordHasher, PasswordVerifier};
use argon2::password_hash::{PasswordHash, SaltString};
use rand_core::OsRng;

verus! {

/// True when `hash` is a well-formed PHC string whose Argon2 digest,
/// recomputed from `secret` with the embedded salt and parameters, matches.
pub uninterp spec fn argon2_accepts(hash: Seq<char>, secret: Seq<char>) -> bool;

/// The B64 digest (32 bytes, unpadded) that Argon2id with default
/// parameters computes from `secret` and the salt whose B64 text is `salt`.
pub uninterp spec fn argon2_digest(secret: Seq<char>, salt: Seq<char>) -> Seq<char>;

/// A character of the standard B64 alphabet.
pub open spec fn is_b64_char(c: char) -> bool {
    let u = c as u32;
    (0x41 <= u <= 0x5a) || (0x61 <= u <= 0x7a) || (0x30 <= u <= 0x39) || c == '+' || c == '/'
}

/// The canonical unpadded B64 text of 16 bytes: 22 characters, the last of
/// which carries four zero bits.
pub open spec fn is_salt_text(s: Seq<char>) -> bool {
    &&& s.len() == 22
    &&& forall|i: int| 0 <= i < 22 ==> is_b64_char(#[trigger] s[i])
    &&& (s[21] == 'A' || s[21] == 'Q' || s[21] == 'g' || s[21] == 'w')
}

/// Relies on password-hash's `SaltString::generate` with the operating
/// system's random source: 16 random bytes, written as canonical unpadded
/// B64. Which bytes is not known.
#[verifier::external_body]
fn fresh_salt() -> (r: String)
    ensures
        is_salt_text(r@),
{
    SaltString::generate(&mut OsRng).as_str().to_string()
}

/// The most characters a secret may have for hashing to succeed: argon2
/// takes passwords of up to `0xFFFF_FFFF` bytes, and a character has at most
/// four bytes.
pub const MAX_SECRET_CHARS: usize = 0x3FFF_FFFF;

/// The algorithm, version and default parameters that open every hash.
pub open spec fn phc_head() -> Seq<char> {
    "$argon2id$v=19$m=19456,t=2,p=1$"@
}

/// The PHC string of `secret` hashed with `salt`: the head, the salt, `$`
/// and the digest.
pub open spec fn phc_text(secret: Seq<char>, salt: Seq<char>) -> Seq<char> {
    phc_head() + salt + "$"@ + argon2_digest(secret, salt)
}

/// A PHC string of Argon2id with default parameters: the head, a salt of
/// 22 characters (16 bytes in B64), `$`, and a digest of 43 (32 bytes).
pub open spec fn is_default_phc(h: Seq<char>) -> bool {
    &&& h.len() == 97
    &&& h.subrange(0, 31) == phc_head()
    &&& h[53] == '$'
}

/// Relies on `SaltString::from_b64`, argon2's `hash_password` with default
/// parameters (Argon2id, version 19, m=19456, t=2, p=1, 32-byte output) and
/// `PasswordHash`'s `Display`. A salt of 16 bytes parses and is long enough;
/// hashing then fails only on a password over `0xFFFF_FFFF` bytes. The PHC
/// string embeds the salt and the digest of 43 characters, and verifies
/// against the same secret.
#[verifier::external_body]
fn argon2_hash(secret: &str, salt: &str) -> (r: Option<String>)
    requires
        is_salt_text(salt@),
    ensures
        secret@.len() <= MAX_SECRET_CHARS ==> r is Some,
        r matches Some(h) ==> h@ == phc_text(secret@, salt@) && argon2_digest(secret@, salt@).len()
            == 43 && argon2_accepts(h@, secret@),
{
    let salt = SaltString::from_b64(salt).ok()?;
    Argon2::default().hash_password(secret.as_bytes(), &salt).ok().map(|h| h.to_string())
}

/// Relies on `PasswordHash::new` and argon2's `verify_password`: true exactly
/// when the hash parses and the recomputed digest matches.
#[verifier::external_body]
fn argon2_verify(hash: &str, secret: &str) -> (r: bool)
    ensures
        r == argon2_accepts(hash@, secret@),
{
    match PasswordHash::new(hash) {
        Ok(parsed) => Argon2::default().verify_password(secret.as_bytes(), &parsed).is_ok(),
        Err(_) => false,
    }
}

/// Hashes a secret with the given salt. `None` only for a secret too long to
/// hash; a returned hash is the PHC string of the secret and that salt, and
/// verifies against the same secret.
pub fn hash_password_with_salt(secret: &str, salt: &str) -> (r: Option<String>)
    requires
        is_salt_text(salt@),
    ensures
        secret@.len() <= MAX_SECRET_CHARS ==> r is Some,
        r matches Some(h) ==> h@ == phc_text(secret@, salt@) && is_default_phc(h@) && argon2_accepts(
            h@,
            secret@,
        ),
{
    let r = argon2_hash(secret, salt);
    proof {
        if r is Some {
            lemma_phc_form(secret@, salt@);
        }
    }
    r
}

/// Hashes a secret for storage with a fresh random salt. `None` only for a
/// secret too long to hash; a returned hash is the PHC string of the secret
/// and a salt drawn for this call, and verifies against the same secret.
pub fn hash_password(secret: &str) -> (r: Option<String>)
    ensures
        secret@.len() <= MAX_SECRET_CHARS ==> r is Some,
        r matches Some(h) ==> argon2_accepts(h@, secret@) && is_default_phc(h@) && exists|salt: Seq<char>|
            is_salt_text(salt) && h@ == phc_text(secret@, salt),
{
    let salt = fresh_salt();
    hash_password_with_salt(secret, salt.as_str())
}

/// Whether `password` matches the stored `hash`.
pub fn verify_password(hash: &str, password: &str) -> (r: bool)
    ensures
        r == argon2_accepts(hash@, password@),
{
    argon2_verify(hash, password)
}

/// A PHC string of a 43-character digest has the default form, and its
/// characters 31 to 53 are the salt it was made with.
pub proof fn lemma_phc_form(secret: Seq<char>, salt: Seq<char>)
    requires
        is_salt_text(salt),
        argon2_digest(secret, salt).len() == 43,
    ensures
        is_default_phc(phc_text(secret, salt)),
        phc_text(secret, salt).subrange(31, 53) == salt,
{
    let h = phc_text(secret, salt);
    assert(phc_head().len() == 31) by {
        reveal_strlit("$argon2id$v=19$m=19456,t=2,p=1$");
    }
    assert("$"@.len() == 1 && "$"@[0] == '$') by {
        reveal_strlit("$");
    }
    assert(h.subrange(0, 31) =~= phc_head());
    assert(h.subrange(31, 53) =~= salt);
    assert(h[53] == '$');
}

/// Hashes made with different salts differ, whatever the secrets: the salt
/// stands in the text.
pub proof fn lemma_salts_tell_hashes_apart(p: Seq<char>, q: Seq<char>, a: Seq<char>, b: Seq<char>)
    requires
        is_salt_text(a),
        is_salt_text(b),
        argon2_digest(p, a).len() == 43,
        argon2_digest(q, b).len() == 43,
        a != b,
    ensures
        phc_text(p, a) != phc_text(q, b),
{
    lemma_phc_form(p, a);
    lemma_phc_form(q, b);
}

} // verus!
