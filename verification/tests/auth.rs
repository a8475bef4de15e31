use flashcards::auth::{check_against_hash, hash_password, login, login_as, AuthError};
use flashcards::models::User;

#[test]
fn the_accepted_password_authenticates() {
    let user = User::find_by_username("ada".to_string()).unwrap();
    assert_eq!(user.authenticate("password".to_string()), Ok(true));
}

#[test]
fn another_password_does_not_authenticate() {
    let user = User::find_by_username("ada".to_string()).unwrap();
    assert_eq!(user.authenticate("passw0rd".to_string()), Ok(false));
}

#[test]
fn a_hash_is_a_bcrypt_string_and_differs_from_the_password() {
    let hash = hash_password("password").unwrap();
    assert_eq!(hash.chars().count(), 60);
    assert!(hash.starts_with("$2b$12$"));
    assert_ne!(hash, "password");
    assert_eq!(check_against_hash(&hash), Ok(true));
}

#[test]
fn a_hash_of_another_password_is_rejected() {
    let hash = hash_password("hunter2").unwrap();
    assert_eq!(hash.chars().count(), 60);
    assert_eq!(check_against_hash(&hash), Ok(false));
}

#[test]
fn a_known_hash_is_checked_by_its_own_salt_and_cost() {
    // bcrypt, cost 4, of "password" and of "hunter2".
    let of_password = bcrypt::hash("password", 4).unwrap();
    let of_other = bcrypt::hash("hunter2", 4).unwrap();
    assert_eq!(check_against_hash(&of_password), Ok(true));
    assert_eq!(check_against_hash(&of_other), Ok(false));
}

#[test]
fn what_is_no_hash_cannot_be_checked() {
    assert_eq!(check_against_hash("password"), Err(AuthError::Verification));
    assert_eq!(check_against_hash(""), Err(AuthError::Verification));
    assert_eq!(
        check_against_hash("$9z$04$abcdefghijklmnopqrstuuabcdefghijklmnopqrstuvwxyz01234"),
        Err(AuthError::Verification)
    );
}

#[test]
fn login_with_the_accepted_password_gives_the_named_user() {
    let user = login(" ada \n", "password\n").unwrap();
    assert_eq!(user, User::find_by_username("ada".to_string()).unwrap());
    assert_eq!(user.username(), "ada");
    assert!(!user.is_guest());
}

#[test]
fn login_with_another_password_gives_the_guest() {
    let user = login("ada\n", "secret\n").unwrap();
    assert_eq!(user, User::guest());
}

#[test]
fn the_verdict_picks_the_user() {
    let ada = User::find_by_username("ada".to_string()).unwrap();
    assert_eq!(login_as(ada.clone(), true), ada);
    assert_eq!(login_as(ada, false), User::guest());
}
