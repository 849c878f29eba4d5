//! Password hashing and temporary-password generation, by the argon2 and rand crates.

use vstd::prelude::*;

use argon2::password_hash::{PasswordHash, PasswordHasher, PasswordVerifier, SaltString};
use rand::distributions::{Alphanumeric, Distribution};
use rand::rngs::{OsRng, StdRng};
use rand::{RngCore, SeedableRng};
use vstd::utf8::encode_utf8;

verus! {

/// Whether argon2's `PasswordHash::new` parses `hash` as a hash string.
pub uninterp spec fn hash_parses(hash: Seq<char>) -> bool;

/// Whether argon2's `verify_password` accepts `password` against the parsed `hash`.
pub uninterp spec fn hash_accepts(hash: Seq<char>, password: Seq<char>) -> bool;

/// An ASCII letter or digit.
pub open spec fn is_alphanumeric(c: char) -> bool {
    ('A' <= c && c <= 'Z') || ('a' <= c && c <= 'z') || ('0' <= c && c <= '9')
}

/// Relies on argon2's `PasswordHash::new` to parse the stored hash and on
/// `Argon2::verify_password` to check the password against it: `None` when the hash does not
/// parse, otherwise whether the password matches. The parsed hash borrows the string, so the
/// two calls stand together here.
#[verifier::external_body]
pub(crate) fn check_password(hash: &str, password: &str) -> (r: Option<bool>)
    ensures
        r is Some <==> hash_parses(hash@),
        r matches Some(ok) ==> ok == hash_accepts(hash@, password@),
{
    match PasswordHash::new(hash) {
        Ok(parsed) => Some(
            argon2::Argon2::default().verify_password(password.as_bytes(), &parsed).is_ok(),
        ),
        Err(_) => None,
    }
}

/// Length of a generated salt, in bytes.
pub const SALT_LEN: usize = 16;

/// The largest password argon2 hashes, in bytes.
pub const MAX_PASSWORD_BYTES: u64 = 0xFFFF_FFFF;

/// Relies on rand's `RngCore::try_fill_bytes` on the operating system's generator: `true` when
/// every byte of the buffer was replaced by a random one, `false` when the generator failed.
#[verifier::external_body]
fn try_fill_random(buf: &mut Vec<u8>) -> (r: bool)
    ensures
        final(buf)@.len() == old(buf)@.len(),
{
    OsRng.try_fill_bytes(buf.as_mut_slice()).is_ok()
}

/// Relies on `SaltString::encode_b64`, which turns the salt into the form argon2 takes, and on
/// `Argon2::hash_password` with the default parameters. The hash string it returns parses, and
/// repeating the computation on the same password with the parameters and salt that the string
/// records reproduces its digest, so it accepts that password. With a salt of 8 to 48 bytes it
/// fails only for a password over [`MAX_PASSWORD_BYTES`].
#[verifier::external_body]
fn argon2_hash(password: &str, salt: &[u8]) -> (r: Option<String>)
    requires
        8 <= salt@.len() <= 48,
    ensures
        r matches Some(h) ==> hash_parses(h@) && hash_accepts(h@, password@),
        encode_utf8(password@).len() <= MAX_PASSWORD_BYTES ==> r is Some,
{
    let salt = SaltString::encode_b64(salt).ok()?;
    argon2::Argon2::default().hash_password(password.as_bytes(), &salt).ok().map(|h| h.to_string())
}

/// A hash of `password` under the salt `salt`; `None` only for a password over
/// [`MAX_PASSWORD_BYTES`].
pub fn hash_password_with_salt(password: &str, salt: &[u8]) -> (r: Option<String>)
    requires
        salt@.len() == SALT_LEN,
    ensures
        r matches Some(h) ==> hash_parses(h@) && hash_accepts(h@, password@),
        encode_utf8(password@).len() <= MAX_PASSWORD_BYTES ==> r is Some,
{
    argon2_hash(password, salt)
}

/// A hash of `password` under a fresh random salt of [`SALT_LEN`] bytes; `None` where the
/// operating system's generator fails or the password is over [`MAX_PASSWORD_BYTES`].
pub fn hash_password(password: &str) -> (r: Option<String>)
    ensures
        r matches Some(h) ==> hash_parses(h@) && hash_accepts(h@, password@),
{
    let mut salt = vec![0u8; SALT_LEN];
    if !try_fill_random(&mut salt) {
        return None;
    }
    hash_password_with_salt(password, salt.as_slice())
}

#[verifier::external_type_specification]
#[verifier::external_body]
pub struct ExStdRng(StdRng);

/// Relies on rand's `SeedableRng::from_rng`, which seeds a generator from the operating
/// system's one through `try_fill_bytes`: `None` when that fails.
#[verifier::external_body]
fn seeded_generator() -> (r: Option<StdRng>) {
    StdRng::from_rng(OsRng).ok()
}

/// Relies on rand's `Alphanumeric` distribution: one ASCII letter or digit drawn from `rng`,
/// whose `next_u32` cannot fail.
#[verifier::external_body]
fn sample_alphanumeric(rng: &mut StdRng) -> (c: char)
    ensures
        is_alphanumeric(c),
{
    char::from(Alphanumeric.sample(rng))
}

/// Relies on `String`'s `FromIterator<char>`: the string of the given characters, in order.
#[verifier::external_body]
fn string_of_chars(chars: Vec<char>) -> (r: String)
    ensures
        r@ == chars@,
{
    chars.into_iter().collect()
}

/// A random string of `len` ASCII letters and digits, from a generator seeded by the operating
/// system's; `None` where seeding fails.
pub fn random_alphanumeric(len: usize) -> (r: Option<String>)
    ensures
        r matches Some(s) ==> s@.len() == len && forall|i: int|
            0 <= i < len ==> is_alphanumeric(#[trigger] s@[i]),
{
    let mut rng = match seeded_generator() {
        Some(g) => g,
        None => {
            return None;
        },
    };
    let mut chars: Vec<char> = Vec::new();
    let mut i: usize = 0;
    while i < len
        invariant
            i <= len,
            chars@.len() == i,
            forall|j: int| 0 <= j < i ==> is_alphanumeric(#[trigger] chars@[j]),
        decreases len - i,
    {
        chars.push(sample_alphanumeric(&mut rng));
        i = i + 1;
    }
    Some(string_of_chars(chars))
}

} // verus!
