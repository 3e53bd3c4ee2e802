//! Credential hashing: a memory-hard password hash in one fixed
//! configuration (Argon2id, version 19, m=19456, t=2, p=1). Every
//! stored credential shares the same PHC-string prefix, so only the
//! salt-and-digest suffix is kept, and the prefix is put back at
//! verification time.

use argon2::{Argon2, PasswordHash, PasswordHasher, PasswordVerifier};
use vstd::prelude::*;

use crate::errors::{AppError, AppErrorView};
use vstd::string::{StrSliceExecFns, StringExecFns};

verus! {

/// The PHC-string prefix every hash of this configuration carries.
pub open spec fn phc_prefix() -> Seq<char> {
    "$argon2id$v=19$m=19456,t=2,p=1$"@
}

/// Whether the verifier accepts this password against this PHC string:
/// the outcome of argon2's `verify_password`, a function of the two
/// arguments alone.
pub uninterp spec fn password_matches(password: Seq<char>, phc: Seq<char>) -> bool;

/// Whether this PHC string parses: the outcome of `PasswordHash::new`,
/// a function of the string alone.
pub uninterp spec fn phc_parses(phc: Seq<char>) -> bool;

/// Relies on argon2's `PasswordHasher::hash_password` in the default
/// configuration with a fresh random 16-byte salt: the PHC string it
/// returns is ASCII, 97 characters (31 of prefix, 22 of salt, a
/// separator, 43 of digest), opens with the fixed prefix, parses, and
/// `verify_password` accepts the same password against it.
#[verifier::external_body]
fn argon_hash(password: &str) -> (r: Option<String>)
    ensures
        r matches Some(full) ==> {
            &&& full@.len() == 97
            &&& full@.subrange(0, 31) == phc_prefix()
            &&& vstd::string::string_is_ascii(&full)
            &&& phc_parses(full@)
            &&& password_matches(password@, full@)
        },
{
    let hash = Argon2::default().hash_password(password.as_bytes()).ok()?;
    Some(hash.to_string())
}

/// How checking a password against a full PHC string came out.
enum ArgonCheck {
    /// The stored string is not a PHC string at all.
    Malformed,
    /// The string parsed; the flag says whether the password matched.
    Parsed(bool),
}

/// Relies on phc's `PasswordHash::new` and argon2's
/// `PasswordVerifier::verify_password`: parsing depends on the string
/// alone, the verdict on the password and the string alone.
#[verifier::external_body]
fn argon_verify(password: &str, full: &str) -> (r: ArgonCheck)
    ensures
        match r {
            ArgonCheck::Malformed => !phc_parses(full@),
            ArgonCheck::Parsed(ok) => phc_parses(full@) && ok == password_matches(
                password@,
                full@,
            ),
        },
{
    let parsed = match PasswordHash::new(full) {
        Ok(parsed) => parsed,
        Err(_) => {
            return ArgonCheck::Malformed;
        },
    };
    ArgonCheck::Parsed(Argon2::default().verify_password(password.as_bytes(), &parsed).is_ok())
}

/// A stored suffix as `hash_password` hands it out for a password: the
/// reconstructed full string parses and the verifier accepts the
/// password against it.
pub open spec fn spec_credential_ok(password: Seq<char>, suffix: Seq<char>) -> bool {
    phc_parses(phc_prefix() + suffix) && password_matches(password, phc_prefix() + suffix)
}

/// The error `verify_password` answers with, if any.
pub open spec fn spec_verify_password(password: Seq<char>, suffix: Seq<char>) -> Option<
    AppErrorView,
> {
    let full = phc_prefix() + suffix;
    if !phc_parses(full) {
        Some(AppErrorView::System("Stored credential is malformed"@))
    } else if !password_matches(password, full) {
        Some(AppErrorView::Unauthorized("Wrong password"@))
    } else {
        None
    }
}

/// Hashes a password and returns the stored suffix: everything past
/// the fixed prefix of the full PHC string. An internal hashing fault
/// is a system error, never a user-facing one.
pub fn hash_password(password: &str) -> (r: Result<String, AppError>)
    ensures
        match r {
            Ok(suffix) => suffix@.len() == 66 && spec_credential_ok(password@, suffix@),
            Err(e) => e@ == AppErrorView::System("Password hashing failed"@),
        },
{
    let full = match argon_hash(password) {
        Some(full) => full,
        None => {
            return Err(AppError::system_error("Password hashing failed"));
        },
    };
    let suffix_slice = full.as_str().substring_ascii(31, 97);
    let suffix = suffix_slice.to_owned();
    proof {
        assert(phc_prefix() + suffix@ =~= full@);
    }
    Ok(suffix)
}

/// Checks a password against a stored suffix by putting the fixed
/// prefix back. A wrong password is an authorization failure; a stored
/// string that does not even parse is a system error.
pub fn verify_password(password: &str, password_hash: String) -> (r: Result<(), AppError>)
    ensures
        match r {
            Ok(()) => spec_verify_password(password@, password_hash@) is None,
            Err(e) => spec_verify_password(password@, password_hash@) == Some(e@),
        },
{
    let mut full = String::from_str("$argon2id$v=19$m=19456,t=2,p=1$");
    full.append(password_hash.as_str());
    match argon_verify(password, full.as_str()) {
        ArgonCheck::Malformed => Err(AppError::system_error("Stored credential is malformed")),
        ArgonCheck::Parsed(true) => Ok(()),
        ArgonCheck::Parsed(false) => Err(AppError::unauthorized("Wrong password")),
    }
}

/// Verifying a freshly hashed password with the same password
/// succeeds: on any suffix `hash_password` hands out for a password,
/// `verify_password` of that password answers with no error.
pub proof fn lemma_hash_then_verify(password: Seq<char>, suffix: Seq<char>)
    requires
        spec_credential_ok(password, suffix),
    ensures
        spec_verify_password(password, suffix) is None,
{
}

} // verus!
