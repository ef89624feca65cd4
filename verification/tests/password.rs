use assement::auth::password::{check_login, hash_password, new_password_hash, verify_password};
use assement::clock::Timestamp;
use assement::error::AppError;
use assement::models::user::{User, UserRole};

fn user_with_hash(hash: &str) -> User {
    User {
        id: 1,
        full_name: "Admin".to_string(),
        email: "admin@example.com".to_string(),
        password_hash: hash.to_string(),
        role: UserRole::Admin,
        created_at: Timestamp { secs: 0, nanos: 0 },
        updated_at: Timestamp { secs: 0, nanos: 0 },
    }
}

#[test]
fn made_hash_verifies_its_password_only() {
    let h = hash_password("Admin@12345").unwrap();
    assert!(h.starts_with("$argon2"));
    assert_eq!(verify_password("Admin@12345", &h), Ok(true));
    assert_eq!(verify_password("wrong", &h), Ok(false));
    let h2 = new_password_hash("Admin@12345").unwrap();
    assert_ne!(h, h2);
    assert_eq!(verify_password("Admin@12345", &h2), Ok(true));
    let empty = hash_password("").unwrap();
    assert_eq!(verify_password("", &empty), Ok(true));
    let long = "p".repeat(10_000);
    assert!(new_password_hash(&long).is_ok());
}

#[test]
fn text_that_is_no_hash_is_refused() {
    assert!(verify_password("x", "plaintext").is_err());
    assert!(verify_password("x", "").is_err());
}

#[test]
fn login_needs_a_known_user_and_the_right_password() {
    let h = hash_password("JamesBond@12345").unwrap();
    let u = check_login(Some(user_with_hash(&h)), "JamesBond@12345").unwrap();
    assert_eq!(u.email, "admin@example.com");
    assert!(matches!(check_login(Some(user_with_hash(&h)), "wrong"), Err(AppError::Unauthorized)));
    assert!(matches!(check_login(None, "JamesBond@12345"), Err(AppError::Unauthorized)));
    assert!(matches!(check_login(Some(user_with_hash("not a hash")), "x"), Err(AppError::Internal(_))));
}
