use auth_service::user::User;
use auth_service::user_store::{HashmapUserStore, UserStoreError};

#[test]
fn test_add_user() {
    let mut user_store = HashmapUserStore::new();
    let user = User::new("email".to_string(), "password".to_string(), true);
    let result = user_store.add_user(user);
    assert_eq!(result, Ok(()));
}

#[test]
fn test_get_user() {
    let mut user_store = HashmapUserStore::new();
    let user = User::new("email".to_string(), "password".to_string(), true);
    let user1 = user.clone();
    let _ = user_store.add_user(user);
    let result = user_store.get_user("email");
    assert_eq!(result, Ok(user1));
}

#[test]
fn test_validate_user() {
    let mut user_store = HashmapUserStore::new();
    let user = User::new("email".to_string(), "password".to_string(), true);
    let _ = user_store.add_user(user);
    let email = "email";
    let password = "password";
    let result = user_store.validate_user(email, password);
    assert_eq!(result, Ok(()));
}

#[test]
fn add_user_twice_conflicts_and_keeps_first_record() {
    let mut store = HashmapUserStore::new();
    let first = User::new("a@example.com".to_string(), "password123".to_string(), false);
    let second = User::new("a@example.com".to_string(), "otherpass99".to_string(), true);
    assert_eq!(store.add_user(first.clone()), Ok(()));
    assert_eq!(store.add_user(second), Err(UserStoreError::UserAlreadyExists));
    assert_eq!(store.get_user("a@example.com"), Ok(first));
}

#[test]
fn get_user_on_empty_store_is_not_found() {
    let store = HashmapUserStore::new();
    assert_eq!(store.get_user("nobody@example.com"), Err(UserStoreError::UserNotFound));
}

#[test]
fn validate_user_tells_wrong_password_from_missing_user() {
    let mut store = HashmapUserStore::new();
    let user = User::new("a@example.com".to_string(), "password123".to_string(), false);
    assert_eq!(store.add_user(user), Ok(()));
    assert_eq!(
        store.validate_user("a@example.com", "password124"),
        Err(UserStoreError::InvalidCredentials)
    );
    assert_eq!(
        store.validate_user("b@example.com", "password123"),
        Err(UserStoreError::UserNotFound)
    );
}

#[test]
fn emails_are_case_sensitive_keys() {
    let mut store = HashmapUserStore::new();
    let lower = User::new("a@example.com".to_string(), "password123".to_string(), false);
    let upper = User::new("A@example.com".to_string(), "password123".to_string(), false);
    assert_eq!(store.add_user(lower), Ok(()));
    assert_eq!(store.add_user(upper), Ok(()));
}
