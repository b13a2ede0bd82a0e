//! The request scenarios of the user API, run through the decisions that the
//! handlers take: reading the path id, building the user to update, and
//! answering each outcome of the service.
use shopping_list::error::Error;
use shopping_list::handlers::{
    created_reply, deleted_reply, parse_user_id, update_request, user_reply, users_reply, Reply,
    ReplyBody,
};
use shopping_list::models::{NewUser, User};
use uuid::Uuid;

fn test_user(n: u32) -> User {
    User {
        id: Uuid::new_v4().as_u128(),
        first_name: format!("First{n}"),
        last_name: format!("Last{n}"),
        email: format!("first{n}@example.com"),
    }
}

fn test_new_user() -> NewUser {
    NewUser {
        first_name: "Grace".to_string(),
        last_name: "Hopper".to_string(),
        email: "grace@example.com".to_string(),
    }
}

fn compare_users(actual: &User, expected: &User) {
    assert_eq!(actual.id, expected.id);
    assert_eq!(actual.first_name, expected.first_name);
    assert_eq!(actual.last_name, expected.last_name);
    assert_eq!(actual.email, expected.email);
}

fn reply_user(reply: &Reply) -> &User {
    match &reply.body {
        ReplyBody::User(u) => u,
        _ => panic!("the reply carries no user"),
    }
}

#[test]
fn should_fetch_all_users_successfully() {
    let users: Vec<User> = (0..5).map(test_user).collect();
    let reply = users_reply(Ok(users.clone()));
    assert_eq!(reply.status, 200);
    match &reply.body {
        ReplyBody::Users(listed) => {
            assert_eq!(listed.len(), users.len());
            for (actual, expected) in listed.iter().zip(users.iter()) {
                compare_users(actual, expected);
            }
        }
        _ => panic!("the reply carries no users"),
    }
}

#[test]
fn fetch_all_users_failed() {
    let reply = users_reply(Err(Error::InternalServerError("DB connection failed".to_string())));
    assert_eq!(reply.status, 500);
}

#[test]
fn should_return_user_successfully() {
    let user = test_user(1);
    let path_id = Uuid::from_u128(user.id).to_string();
    assert_eq!(parse_user_id(&path_id), Ok(user.id));
    let reply = user_reply(Ok(user.clone()));
    assert_eq!(reply.status, 200);
    compare_users(reply_user(&reply), &user);
}

#[test]
fn should_return_user_not_found() {
    let user_id = Uuid::new_v4();
    assert_eq!(parse_user_id(&format!("{user_id}")), Ok(user_id.as_u128()));
    let reply = user_reply(Err(Error::NotFound(format!("User with id {user_id} not found"))));
    assert_eq!(reply.status, 404);
}

#[test]
fn should_create_user_successfully() {
    let created_user = test_user(2);
    let reply = created_reply(Ok(created_user.clone()));
    assert_eq!(reply.status, 201);
    compare_users(reply_user(&reply), &created_user);
}

#[test]
fn should_return_invalid_payload() {
    let reply = created_reply(Err(Error::InvalidInput("Invalid user data".to_string())));
    assert_eq!(reply.status, 400);
}

#[test]
fn should_handle_internal_server_error() {
    let reply = created_reply(Err(Error::InternalServerError("Database error".to_string())));
    assert_eq!(reply.status, 500);
}

#[test]
fn should_update_user_successfully() {
    let user_id = Uuid::new_v4();
    let updated_user = test_user(3);
    let payload = NewUser {
        first_name: updated_user.first_name.clone(),
        last_name: updated_user.last_name.clone(),
        email: updated_user.email.clone(),
    };
    let request = update_request(&user_id.to_string(), payload).unwrap();
    assert_eq!(request.id, user_id.as_u128());
    assert_eq!(request.first_name, updated_user.first_name);
    let reply = user_reply(Ok(updated_user.clone()));
    assert_eq!(reply.status, 200);
    compare_users(reply_user(&reply), &updated_user);
}

#[test]
fn should_return_user_not_found_on_update() {
    let user_id = Uuid::new_v4();
    assert!(update_request(&user_id.to_string(), test_new_user()).is_ok());
    let reply = user_reply(Err(Error::NotFound(format!("User with id {user_id} not found"))));
    assert_eq!(reply.status, 404);
}

#[test]
fn should_delete_user_successfully() {
    let user_id = Uuid::new_v4();
    assert_eq!(parse_user_id(&user_id.to_string()), Ok(user_id.as_u128()));
    let reply = deleted_reply(Ok(()));
    assert_eq!(reply.status, 204);
    assert!(matches!(reply.body, ReplyBody::Empty));
}

#[test]
fn should_return_user_not_found_on_delete() {
    let user_id = Uuid::new_v4();
    let reply = deleted_reply(Err(Error::NotFound(format!("User with id {user_id} not found"))));
    assert_eq!(reply.status, 404);
    match reply.body {
        ReplyBody::Text(text) => assert_eq!(text, format!("User with id {user_id} not found")),
        _ => panic!("the reply carries no text"),
    }
}

#[test]
fn invalid_path_id_is_bad_request() {
    let err = parse_user_id("not-a-uuid").unwrap_err();
    assert_eq!(err, Error::InvalidInput("Invalid UUID format".to_string()));
    let reply = err.into_reply();
    assert_eq!(reply.status, 400);
    match reply.body {
        ReplyBody::Text(text) => assert_eq!(text, "Invalid UUID format"),
        _ => panic!("the reply carries no text"),
    }
    assert!(update_request("12345", test_new_user()).is_err());
}

#[test]
fn path_id_accepts_every_uuid_form() {
    let id = 0x151b219c_7fe6_4622_8bd0_d9ed03031a5fu128;
    assert_eq!(parse_user_id("151b219c-7fe6-4622-8bd0-d9ed03031a5f"), Ok(id));
    assert_eq!(parse_user_id("151B219C-7FE6-4622-8BD0-D9ED03031A5F"), Ok(id));
    assert_eq!(parse_user_id("151b219c7fe646228bd0d9ed03031a5f"), Ok(id));
    assert_eq!(parse_user_id("{151b219c-7fe6-4622-8bd0-d9ed03031a5f}"), Ok(id));
    assert_eq!(parse_user_id("urn:uuid:151b219c-7fe6-4622-8bd0-d9ed03031a5f"), Ok(id));
    assert!(parse_user_id("151b219c-7fe6-4622-8bd0-d9ed03031a5").is_err());
    assert!(parse_user_id("").is_err());
}

#[test]
fn error_statuses_and_texts() {
    let not_found = Error::NotFound("gone".to_string());
    let invalid = Error::InvalidInput("bad".to_string());
    let internal = Error::InternalServerError("boom".to_string());
    assert_eq!(not_found.status_code(), 404);
    assert_eq!(invalid.status_code(), 400);
    assert_eq!(internal.status_code(), 500);
    assert_eq!(not_found.to_string(), "gone");
    assert_eq!(invalid.to_string(), "bad");
    assert_eq!(internal.to_string(), "Internal Server Error: boom");
    let reply = internal.into_reply();
    assert_eq!(reply.status, 500);
    match reply.body {
        ReplyBody::Text(text) => assert_eq!(text, "Internal Server Error: boom"),
        _ => panic!("the reply carries no text"),
    }
}

#[test]
fn listing_error_is_answered_with_its_status() {
    let reply = users_reply(Err(Error::NotFound("No users found".to_string())));
    assert_eq!(reply.status, 404);
    let reply = deleted_reply(Err(Error::InvalidInput("x".to_string())));
    assert_eq!(reply.status, 400);
}

#[test]
fn hyphenated_update_path_is_accepted() {
    let id = 0x0123_4567_89ab_cdef_0123_4567_89ab_cdefu128;
    let user = update_request("01234567-89ab-cdef-0123-456789abcdef", test_new_user()).unwrap();
    assert_eq!(user.id, id);
    assert_eq!(user.email, "grace@example.com");
    assert_eq!(
        update_request("abc", test_new_user()),
        Err(Error::InvalidInput("Invalid UUID format".to_string()))
    );
}
