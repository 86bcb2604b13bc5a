//! Password hashing and verification over argon2, with the verification
//! decision logic verified around a named verdict.

use vstd::prelude::*;

use argon2::password_hash::{PasswordHasher, PasswordVerifier};

use crate::user::User;

verus! {

/// A well-formed PHC string for the timing mitigation below, hashed once
/// with the same parameters the hasher uses.
const FALLBACK_HASH: &'static str = "$argon2id$v=19$m=65536,t=3,p=1$2aYZPLsX/K0wjEZ1Hy6leg$ZxY80K0Lq3nS/PKsOciRJodOH9u8BRVdiAhjKFDUbCE";

/// The verdict of argon2 password verification: whether `password` matches
/// the PHC-encoded `hash`. A function of the two strings alone.
pub uninterp spec fn argon2_verifies(password: Seq<char>, hash: Seq<char>) -> bool;

/// Relies on argon2's `Argon2::verify_password` through its
/// `PasswordVerifier<str>` impl, which parses the PHC string (taking the
/// hash parameters from it) and recomputes the hash: the verdict is a
/// function of the password and the hash alone, and an unparseable hash
/// never verifies.
#[verifier::external_body]
fn argon2_check(password: &str, hash: &str) -> (r: bool)
    ensures
        r == argon2_verifies(password@, hash@),
{
    let argon2 = argon2::Argon2::default();
    argon2.verify_password(password.as_bytes(), hash).is_ok()
}

/// Relies on argon2's `Argon2::hash_password` (Argon2id v19, m = 65536,
/// t = 3, p = 1), which draws a fresh random salt: nothing relates the
/// resulting PHC string to the inputs, and two calls on the same password
/// differ.
#[verifier::external_body]
pub fn hash_password(password: &str) -> (r: Option<String>)
{
    let params = match argon2::Params::new(65536, 3, 1, None) {
        Ok(p) => p,
        Err(_) => {
            return None;
        },
    };
    let argon2 = argon2::Argon2::new(argon2::Algorithm::Argon2id, argon2::Version::V0x13, params);
    argon2.hash_password(password.as_bytes()).ok().map(|h| h.to_string())
}

/// Checks `password` against the stored hash of `user`, handing the user
/// back only on a match. When no user was found, a fixed well-formed hash
/// is still verified against, so that the caller's timing does not reveal
/// whether the account exists.
pub fn verify_password(user: Option<User>, password: &str) -> (r: (bool, Option<User>))
    ensures
        user is None ==> r == (false, Option::<User>::None),
        user matches Some(u) ==> (argon2_verifies(password@, u.spec_password()@) ==> r == (
            true,
            Some(u),
        )),
        user matches Some(u) ==> (!argon2_verifies(password@, u.spec_password()@) ==> r == (
            false,
            Option::<User>::None,
        )),
{
    match user {
        Some(u) => {
            let ok = argon2_check(password, u.password());
            if ok {
                (true, Some(u))
            } else {
                (false, None)
            }
        },
        None => {
            let _ = argon2_check(password, FALLBACK_HASH);
            (false, None)
        },
    }
}

} // verus!
