use ticket_api::error::AppError;
use ticket_api::password::{hash_outcome, hash_password, match_outcome, verify_password};

#[test]
fn password_matches_a_hash_made_elsewhere() {
    let hash = "$2a$04$UuTkLRZZ6QofpDOlMz32MuuxEHA43WOemOYHPz6.SjsVsyO1tDU96";
    assert!(verify_password("password", hash));
    assert!(!verify_password("Password", hash));
    assert!(!verify_password("", hash));
    assert!(!verify_password(hash, hash));
}

#[test]
fn password_matches_its_own_hash_only() {
    let hash = hash_password("hunter2").unwrap();
    assert_ne!(hash, "hunter2");
    assert!(hash.starts_with("$2b$12$"));
    assert!(verify_password("hunter2", &hash));
    assert!(!verify_password("hunter3", &hash));
}

#[test]
fn hashes_of_one_password_differ() {
    let first = hash_password("hunter2").unwrap();
    let second = hash_password("hunter2").unwrap();
    assert_ne!(first, second);
}

#[test]
fn unreadable_hash_matches_nothing() {
    assert!(!verify_password("password", ""));
    assert!(!verify_password("password", "password"));
    assert!(!verify_password("password", "$2a$04$tooshort"));
    assert!(!verify_password("password", "$9z$04$UuTkLRZZ6QofpDOlMz32MuuxEHA43WOemOYHPz6.SjsVsyO1tDU96"));
}

#[test]
fn outcomes_of_the_hasher() {
    assert_eq!(hash_outcome(Ok("abc".to_string())), Ok("abc".to_string()));
    assert_eq!(
        hash_outcome(Err(bcrypt::BcryptError::InvalidCost("x".to_string()))),
        Err(AppError::InternalServerError)
    );
    assert!(match_outcome(Ok(true)));
    assert!(!match_outcome(Ok(false)));
    assert!(!match_outcome(Err(bcrypt::BcryptError::InvalidSaltLen(3))));
}
