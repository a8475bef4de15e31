//! Logging in: passwords are hashed and checked with bcrypt.

use crate::models::{User, UserView};
use crate::text::{trim, trimmed};
use vstd::prelude::*;

verus! {

/// The error type of the bcrypt crate. Nothing of what it holds is read here.
#[verifier::external_type_specification]
#[verifier::external_body]
pub struct ExBcryptError(bcrypt::BcryptError);

/// What `bcrypt::verify` makes of a password and a hash string: `Some(true)` where
/// the hash string is well formed and the password hashes to it under the cost and
/// salt it names, `Some(false)` where it is well formed and the password does not,
/// `None` where `bcrypt::verify` returns an error.
pub uninterp spec fn bcrypt_verifies(password: Seq<char>, hash: Seq<char>) -> Option<bool>;

/// Calls `bcrypt::hash` with the crate's default cost. The salt is drawn at random,
/// so two calls on one password differ. Of every hash string that comes back, this
/// claims that it is the 60 characters of the bcrypt format and that
/// `bcrypt::verify` accepts the password against it.
#[verifier::external_body]
fn bcrypt_hash(password: &str) -> (r: Result<String, bcrypt::BcryptError>)
    ensures
        r matches Ok(h) ==> h@.len() == 60 && bcrypt_verifies(password@, h@) == Some(true),
{
    bcrypt::hash(password, bcrypt::DEFAULT_COST)
}

/// Calls `bcrypt::verify`, whose result depends on its two arguments alone, and
/// claims that what comes back is what `bcrypt_verifies` names.
#[verifier::external_body]
fn bcrypt_verify(password: &str, hash: &str) -> (r: Result<bool, bcrypt::BcryptError>)
    ensures
        r matches Ok(b) ==> bcrypt_verifies(password@, hash@) == Some(b),
        r is Err ==> bcrypt_verifies(password@, hash@) is None,
{
    bcrypt::verify(password, hash)
}

/// Why a login could not be decided.
#[derive(Debug, Clone, Copy, PartialEq, Eq, Structural)]
pub enum AuthError {
    /// The password could not be hashed.
    Hashing,
    /// The hash string could not be checked: it is not a bcrypt hash.
    Verification,
    /// No user goes by the name that was typed.
    UnknownUser,
}

/// The password that authenticates.
pub open spec fn accepted_password() -> Seq<char> {
    "password"@
}

/// The verdict on a hash string: whether the accepted password hashes to it.
pub open spec fn verdict_on(hash: Seq<char>) -> Result<bool, AuthError> {
    match bcrypt_verifies(accepted_password(), hash) {
        Some(b) => Ok(b),
        None => Err(AuthError::Verification),
    }
}

/// The user that a login ends with: the named user where the password was accepted,
/// the guest where it was not.
pub open spec fn logged_in(username: Seq<char>, accepted: bool) -> UserView {
    if accepted {
        UserView { username, is_authenticated: false, is_guest: false }
    } else {
        User::spec_guest()
    }
}

/// Hashes `password` for storing. The hash differs from call to call; each one is a
/// bcrypt hash string that the password verifies against.
pub fn hash_password(password: &str) -> (r: Result<String, AuthError>)
    ensures
        r matches Ok(h) ==> h@.len() == 60 && bcrypt_verifies(password@, h@) == Some(true),
        r matches Err(e) ==> e == AuthError::Hashing,
{
    match bcrypt_hash(password) {
        Ok(h) => Ok(h),
        Err(_) => Err(AuthError::Hashing),
    }
}

/// Whether the accepted password hashes to `hashed_password`.
pub fn check_against_hash(hashed_password: &str) -> (r: Result<bool, AuthError>)
    ensures
        r == verdict_on(hashed_password@),
{
    match bcrypt_verify("password", hashed_password) {
        Ok(b) => Ok(b),
        Err(_) => Err(AuthError::Verification),
    }
}

impl User {
    /// Whether `password` authenticates: it is hashed, and the accepted password is
    /// checked against the hash. So the accepted password always authenticates where
    /// it can be hashed at all, and whatever else is returned is the verdict on some
    /// hash string.
    pub fn authenticate(&self, password: String) -> (r: Result<bool, AuthError>)
        ensures
            r matches Ok(b) ==> exists|h: Seq<char>| h.len() == 60 && #[trigger] verdict_on(h)
                == Ok::<bool, AuthError>(b),
            r matches Ok(b) ==> (password@ == accepted_password() ==> b),
            r matches Err(e) ==> e == AuthError::Hashing || e == AuthError::Verification,
    {
        let hashed_password: String = match hash_password(password.as_str()) {
            Ok(h) => h,
            Err(e) => { return Err(e); },
        };
        let r: Result<bool, AuthError> = check_against_hash(hashed_password.as_str());
        proof {
            if r is Ok {
                assert(verdict_on(hashed_password@) == r);
            }
        }
        r
    }
}

/// The user that the typed name and the verdict on the typed password give.
pub fn login_as(user: User, accepted: bool) -> (r: User)
    ensures
        accepted ==> r@ == user@,
        !accepted ==> r@ == User::spec_guest(),
{
    if accepted {
        user
    } else {
        User::guest()
    }
}

/// Logs in with the two lines typed at the prompts: both are taken without the
/// whitespace around them; the user of that name is looked up and the password put
/// to `authenticate`. Where it authenticates, the result is that user; where it does
/// not, the guest.
pub fn login(username_line: &str, password_line: &str) -> (r: Result<User, AuthError>)
    ensures
        r matches Ok(u) ==> (u@ == logged_in(trimmed(username_line@), true) || u@
            == logged_in(trimmed(username_line@), false)),
        r matches Ok(u) ==> (trimmed(password_line@) == accepted_password() ==> u@ == logged_in(
            trimmed(username_line@),
            true,
        )),
        r matches Err(e) ==> e == AuthError::Hashing || e == AuthError::Verification,
{
    let username: String = String::from_str(trim(username_line));
    let password: String = String::from_str(trim(password_line));
    let user: User = match User::find_by_username(username) {
        Ok(user) => user,
        Err(_) => { return Err(AuthError::UnknownUser); },
    };
    match user.authenticate(password) {
        Ok(accepted) => Ok(login_as(user, accepted)),
        Err(e) => Err(e),
    }
}

} // verus!
