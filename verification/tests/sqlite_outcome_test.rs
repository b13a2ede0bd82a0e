//! What the SQLite repository answers for each outcome of its queries.
use shopping_list::error::Error;
use shopping_list::models::{NewUser, User};
use shopping_list::repositories::sqlite_user_repository::{
    added_user, deleted_user, fetched_user, fetched_users, updated_user,
};

fn user(id: u128) -> User {
    User {
        id,
        first_name: "Ada".to_string(),
        last_name: "Lovelace".to_string(),
        email: "ada@example.com".to_string(),
    }
}

#[test]
fn lookup_outcomes() {
    assert_eq!(fetched_user(5, Some(user(5))), Ok(user(5)));
    assert_eq!(
        fetched_user(5, None),
        Err(Error::NotFound("User 00000000-0000-0000-0000-000000000005 not found".to_string()))
    );
}

#[test]
fn listing_outcomes() {
    assert_eq!(fetched_users(Some(vec![user(1), user(2)])), Ok(vec![user(1), user(2)]));
    assert_eq!(fetched_users(None), Err(Error::NotFound("No users found".to_string())));
}

#[test]
fn write_outcomes() {
    let made = User::from_new_user(NewUser {
        first_name: "Ada".to_string(),
        last_name: "Lovelace".to_string(),
        email: "ada@example.com".to_string(),
    });
    assert_eq!(added_user(made.clone(), None), Ok(made.clone()));
    assert_eq!(
        added_user(made, Some("UNIQUE constraint failed".to_string())),
        Err(Error::NotFound("Failed to insert user: UNIQUE constraint failed".to_string()))
    );
    assert_eq!(updated_user(user(3), None), Ok(user(3)));
    assert_eq!(
        updated_user(user(3), Some("disk I/O error".to_string())),
        Err(Error::NotFound("Failed to update user: disk I/O error".to_string()))
    );
    assert_eq!(deleted_user(None), Ok(()));
    assert_eq!(
        deleted_user(Some("locked".to_string())),
        Err(Error::NotFound("Failed to delete user: locked".to_string()))
    );
}
