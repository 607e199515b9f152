//! Password hashes, held in the self-describing encoded form of orion's Argon2i.
use crate::text::{decimal, starts_with};
use vstd::prelude::*;

verus! {

/// `orion::errors::UnknownCryptoError`, orion's failure, carried through unchanged.
#[verifier::external_type_specification]
#[verifier::external_body]
pub struct ExUnknownCryptoError(orion::errors::UnknownCryptoError);

/// Whether orion reads a text as an encoded password hash.
pub uninterp spec fn password_hash_accepted(s: Seq<char>) -> bool;

/// Relies on `orion::pwhash::PasswordHash::from_encoded`: it accepts or refuses
/// the text on the text alone, and keeps an accepted text verbatim (as
/// `unprotected_as_encoded` shows).
#[verifier::external_body]
fn parse_encoded_hash(s: &str) -> (r: Result<String, orion::errors::UnknownCryptoError>)
    ensures
        r is Ok <==> password_hash_accepted(s@),
        r is Ok ==> r->Ok_0@ == s@,
{
    match orion::pwhash::PasswordHash::from_encoded(s) {
        Ok(h) => Ok(h.unprotected_as_encoded().to_string()),
        Err(e) => Err(e),
    }
}

/// Fewer passes than orion's Argon2i accepts.
pub const MIN_ITERATIONS: u32 = 3;

/// Less memory, in KiB, than orion's Argon2i accepts.
pub const MIN_MEMORY_KIB: u32 = 8;

/// The most characters of a password that surely fit in orion's limit of
/// `u32::MAX` bytes (a character takes at most four bytes in UTF-8).
pub const MAX_PASSWORD_CHARS: usize = 0x3FFF_FFFF;

/// The start of an encoded hash made with the given costs:
/// `$argon2i$v=19$m=<memory>,t=<iterations>,p=1$`.
pub open spec fn hash_prefix(memory_kib: u32, iterations: u32) -> Seq<char> {
    "$argon2i$v=19$m="@ + decimal(memory_kib as nat) + ",t="@ + decimal(iterations as nat)
        + ",p=1$"@
}

/// Whether orion hashes a password of this length under these costs: it
/// refuses an empty or over-long password, fewer than three passes, and less
/// than 8 KiB of memory.
pub open spec fn hashing_succeeds(password: Seq<char>, iterations: u32, memory_kib: u32) -> bool {
    &&& 0 < password.len() <= MAX_PASSWORD_CHARS
    &&& iterations >= MIN_ITERATIONS
    &&& memory_kib >= MIN_MEMORY_KIB
}

/// Relies on `orion::pwhash::hash_password` (its password made by
/// `Password::from_slice`). The salt is random, so of the hash only this is
/// stated: `PasswordHash::from_encoded` accepts it, and it starts with the
/// costs it was made with (`PasswordHash::encode`). orion fails only on an
/// empty password, one over `u32::MAX` bytes, fewer than three passes or less
/// than 8 KiB; it panics only when the system's random source fails.
#[verifier::external_body]
fn hash_password(password: &str, iterations: u32, memory_kib: u32) -> (r: Result<
    String,
    orion::errors::UnknownCryptoError,
>)
    ensures
        hashing_succeeds(password@, iterations, memory_kib) ==> r is Ok,
        r is Ok ==> password_hash_accepted(r->Ok_0@),
        r is Ok ==> starts_with(r->Ok_0@, hash_prefix(memory_kib, iterations)),
{
    let password = orion::pwhash::Password::from_slice(password.as_bytes())?;
    let hash = orion::pwhash::hash_password(&password, iterations, memory_kib)?;
    Ok(hash.unprotected_as_encoded().to_string())
}

/// An encoded password hash that orion accepts; never plaintext.
#[derive(Debug, PartialEq, Eq)]
pub struct PasswordHash {
    encoded: String,
}

impl View for PasswordHash {
    type V = Seq<char>;

    closed spec fn view(&self) -> Seq<char> {
        self.encoded@
    }
}

impl Clone for PasswordHash {
    fn clone(&self) -> (r: PasswordHash)
        ensures
            r@ == self@,
    {
        proof {
            use_type_invariant(self);
        }
        PasswordHash { encoded: self.encoded.clone() }
    }
}

impl PasswordHash {
    #[verifier::type_invariant]
    pub(crate) open spec fn inv(self) -> bool {
        password_hash_accepted(self@)
    }

    /// Reads an encoded hash; fails exactly where orion refuses the text.
    pub fn from_encoded(s: &str) -> (r: Result<PasswordHash, orion::errors::UnknownCryptoError>)
        ensures
            r is Ok <==> password_hash_accepted(s@),
            r is Ok ==> r->Ok_0@ == s@,
    {
        match parse_encoded_hash(s) {
            Ok(encoded) => Ok(PasswordHash { encoded }),
            Err(e) => Err(e),
        }
    }

    /// Hashes a password with Argon2i under the given cost parameters, which
    /// the hash records at its start.
    pub fn hash(password: &str, iterations: u32, memory_kib: u32) -> (r: Result<
        PasswordHash,
        orion::errors::UnknownCryptoError,
    >)
        ensures
            hashing_succeeds(password@, iterations, memory_kib) ==> r is Ok,
            r is Ok ==> password_hash_accepted(r->Ok_0@),
            r is Ok ==> starts_with(r->Ok_0@, hash_prefix(memory_kib, iterations)),
    {
        match hash_password(password, iterations, memory_kib) {
            Ok(encoded) => Ok(PasswordHash { encoded }),
            Err(e) => Err(e),
        }
    }

    /// The encoded text of the hash, which orion accepts.
    pub fn unprotected_as_encoded(&self) -> (r: &str)
        ensures
            r@ == self@,
            password_hash_accepted(r@),
    {
        proof {
            use_type_invariant(self);
        }
        self.encoded.as_str()
    }
}

} // verus!
