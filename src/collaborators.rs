//! Calls into the crates the library builds on, with the contracts relied on.

use vstd::prelude::*;
use vstd::utf8::encode_utf8;
use argon2::password_hash::rand_core::OsRng;
use argon2::password_hash::SaltString;
use argon2::{Argon2, PasswordHasher};
use std::str::FromStr;

verus! {

/// lettre's parsed email address.
#[verifier::external_type_specification]
#[verifier::external_body]
pub struct ExAddress(lettre::Address);

/// lettre's address parse error, mapped to an internal failure.
#[verifier::external_type_specification]
#[verifier::external_body]
pub struct ExAddressError(lettre::address::AddressError);

/// The password-hash error, mapped to an internal failure.
#[verifier::external_type_specification]
#[verifier::external_body]
pub struct ExHashError(argon2::password_hash::Error);

/// Whether lettre accepts the text as an email address.
pub uninterp spec fn address_accepted(s: Seq<char>) -> bool;

/// Relies on `<lettre::Address as FromStr>::from_str`: whether it succeeds
/// depends on the text alone.
#[verifier::external_body]
pub(crate) fn parse_address(s: &str) -> (r: Result<lettre::Address, lettre::address::AddressError>)
    ensures
        r is Ok <==> address_accepted(s@),
{
    lettre::Address::from_str(s)
}

/// The PHC string that Argon2 (default parameters) makes of a password's
/// bytes and a base64 salt, or `None` where it refuses them.
pub uninterp spec fn argon2_phc(password: Seq<u8>, salt: Seq<char>) -> Option<Seq<char>>;

/// Relies on `SaltString::from_b64` and `Argon2::hash_password` with
/// `Argon2::default()`: the digest depends on the password and the salt alone.
#[verifier::external_body]
pub(crate) fn hash_password(password: &str, salt: &str) -> (r: Result<String, argon2::password_hash::Error>)
    ensures
        match r {
            Ok(h) => argon2_phc(encode_utf8(password@), salt@) == Some(h@),
            Err(_) => argon2_phc(encode_utf8(password@), salt@) is None,
        },
{
    let salt = SaltString::from_b64(salt)?;
    let hash = Argon2::default().hash_password(password.as_bytes(), &salt)?;
    Ok(hash.serialize().as_str().to_string())
}

/// Relies on `SaltString::generate` over the operating system's random source:
/// a fresh salt for each call, sixteen random bytes in B64, which
/// `SaltString::from_b64` accepts and which is long enough for Argon2; with
/// default parameters Argon2 then hashes every password of at most
/// `argon2::MAX_PWD_LEN` (`0xFFFF_FFFF`) bytes.
#[verifier::external_body]
pub(crate) fn generate_salt() -> (r: String)
    ensures
        forall|p: Seq<u8>| p.len() <= 0xFFFF_FFFF ==> (#[trigger] argon2_phc(p, r@)) is Some,
{
    SaltString::generate(&mut OsRng).as_str().to_string()
}

/// A UUID, as a big-endian `u128`, whose version field is 4 (random) and
/// whose variant is the RFC 4122 one.
pub open spec fn is_v4_id(id: u128) -> bool {
    &&& (id >> 76u128) & 0xfu128 == 4
    &&& (id >> 62u128) & 0x3u128 == 2
}

/// Relies on `uuid::Uuid::new_v4` and `Uuid::as_u128`: a random identifier
/// whose version field is 4 and whose variant is the RFC 4122 one.
#[verifier::external_body]
pub(crate) fn new_v4_id() -> (r: u128)
    ensures
        is_v4_id(r),
{
    uuid::Uuid::new_v4().as_u128()
}

} // verus!
