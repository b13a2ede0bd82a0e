//! The in-memory user stores: what they hold, answer and keep.
use shopping_list::error::Error;
use shopping_list::handlers::{deleted_reply, user_reply};
use shopping_list::models::{NewUser, User};
use shopping_list::repositories::in_memory_user_repository::{ALICE_ID, BOB_ID};
use shopping_list::repositories::InMemoryUserRepository;
use shopping_list::services::user::UserService;
use shopping_list::store::UserTable;
use uuid::Uuid;

fn grace() -> NewUser {
    NewUser {
        first_name: "Grace".to_string(),
        last_name: "Hopper".to_string(),
        email: "grace@example.com".to_string(),
    }
}

fn sorted_ids(users: &[User]) -> Vec<u128> {
    let mut ids: Vec<u128> = users.iter().map(|u| u.id).collect();
    ids.sort();
    ids
}

#[test]
fn new_repository_holds_alice_and_bob() {
    let repo = InMemoryUserRepository::new();
    let alice = repo.fetch_user_by_id(ALICE_ID).unwrap();
    assert_eq!(Uuid::from_u128(alice.id).to_string(), "151b219c-7fe6-4622-8bd0-d9ed03031a5f");
    assert_eq!(alice.first_name, "Alice");
    assert_eq!(alice.last_name, "Smith");
    assert_eq!(alice.email, "alice@example.com");
    let bob = repo.fetch_user_by_id(BOB_ID).unwrap();
    assert_eq!(Uuid::from_u128(bob.id).to_string(), "151b219c-7fe6-4622-8bd0-d9ed03031a5e");
    assert_eq!(bob.first_name, "Bob");
    assert_eq!(bob.last_name, "Johnson");
    assert_eq!(bob.email, "bob@example.com");
    let all = repo.fetch_all_users().unwrap();
    assert_eq!(sorted_ids(&all), vec![BOB_ID, ALICE_ID]);
    let by_default = InMemoryUserRepository::default();
    assert_eq!(by_default.fetch_all_users().unwrap().len(), 2);
}

#[test]
fn repository_refuses_unknown_ids_with_its_message() {
    let mut repo = InMemoryUserRepository::new();
    let id = Uuid::parse_str("00000000-0000-0000-0000-0000000000ab").unwrap();
    let expected = Error::NotFound(format!("User {id} not found"));
    assert_eq!(repo.fetch_user_by_id(id.as_u128()), Err(expected));
    let stranger = User {
        id: id.as_u128(),
        first_name: "X".to_string(),
        last_name: "Y".to_string(),
        email: "z".to_string(),
    };
    assert_eq!(
        repo.update_user(stranger),
        Err(Error::NotFound("User 00000000-0000-0000-0000-0000000000ab not found".to_string()))
    );
    assert_eq!(
        repo.delete_user(id.as_u128()),
        Err(Error::NotFound("User 00000000-0000-0000-0000-0000000000ab not found".to_string()))
    );
    assert_eq!(repo.fetch_all_users().unwrap().len(), 2);
}

#[test]
fn added_user_is_found_again() {
    let mut repo = InMemoryUserRepository::new();
    let user = repo.add_user(grace()).unwrap();
    assert_eq!(user.first_name, "Grace");
    assert_eq!(user.last_name, "Hopper");
    assert_eq!(user.email, "grace@example.com");
    assert_eq!(Uuid::from_u128(user.id).get_version_num(), 4);
    assert_eq!(Uuid::from_u128(user.id).get_variant(), uuid::Variant::RFC4122);
    assert_eq!(repo.fetch_user_by_id(user.id), Ok(user.clone()));
    assert_eq!(repo.fetch_all_users().unwrap().len(), 3);
    let second = repo.add_user(grace()).unwrap();
    assert_ne!(second.id, user.id);
    assert_eq!(repo.fetch_all_users().unwrap().len(), 4);
}

#[test]
fn add_with_chosen_id_replaces_a_user_held_there() {
    let mut repo = InMemoryUserRepository::new();
    let user = repo.add_user_with_id(ALICE_ID, grace()).unwrap();
    assert_eq!(user.id, ALICE_ID);
    assert_eq!(repo.fetch_user_by_id(ALICE_ID).unwrap().first_name, "Grace");
    assert_eq!(repo.fetch_all_users().unwrap().len(), 2);
}

#[test]
fn update_replaces_a_held_user() {
    let mut repo = InMemoryUserRepository::new();
    let changed = User {
        id: BOB_ID,
        first_name: "Robert".to_string(),
        last_name: "Johnson".to_string(),
        email: "robert@example.com".to_string(),
    };
    assert_eq!(repo.update_user(changed.clone()), Ok(changed.clone()));
    assert_eq!(repo.fetch_user_by_id(BOB_ID), Ok(changed));
    assert_eq!(repo.fetch_user_by_id(ALICE_ID).unwrap().first_name, "Alice");
}

#[test]
fn deleted_user_is_gone_and_cannot_be_deleted_twice() {
    let mut repo = InMemoryUserRepository::new();
    assert_eq!(repo.delete_user(ALICE_ID), Ok(()));
    assert!(matches!(repo.fetch_user_by_id(ALICE_ID), Err(Error::NotFound(_))));
    assert!(matches!(repo.delete_user(ALICE_ID), Err(Error::NotFound(_))));
    let all = repo.fetch_all_users().unwrap();
    assert_eq!(sorted_ids(&all), vec![BOB_ID]);
}

#[test]
fn delete_undoes_add() {
    let mut repo = InMemoryUserRepository::new();
    let before = sorted_ids(&repo.fetch_all_users().unwrap());
    let user = repo.add_user(grace()).unwrap();
    repo.delete_user(user.id).unwrap();
    assert_eq!(sorted_ids(&repo.fetch_all_users().unwrap()), before);
    assert_eq!(repo.fetch_user_by_id(ALICE_ID).unwrap().first_name, "Alice");
}

#[test]
fn service_answers_with_its_own_message() {
    let mut service = UserService::new();
    assert_eq!(service.fetch_user_by_id(ALICE_ID).unwrap().last_name, "Smith");
    let id = 0xab_u128;
    let expected = "User with id 00000000-0000-0000-0000-0000000000ab not found".to_string();
    assert_eq!(service.fetch_user_by_id(id), Err(Error::NotFound(expected.clone())));
    assert_eq!(service.delete_user(id), Err(Error::NotFound(expected.clone())));
    let stranger = User {
        id,
        first_name: "X".to_string(),
        last_name: "Y".to_string(),
        email: "z".to_string(),
    };
    assert_eq!(service.update_user(stranger), Err(Error::NotFound(expected)));
}

#[test]
fn service_keeps_what_it_is_given() {
    let mut service = UserService::default();
    let user = service.add_user(grace()).unwrap();
    assert_eq!(service.fetch_user_by_id(user.id), Ok(user.clone()));
    let renamed = User { first_name: "Amazing Grace".to_string(), ..user.clone() };
    assert_eq!(service.update_user(renamed.clone()), Ok(renamed.clone()));
    assert_eq!(service.fetch_user_by_id(user.id), Ok(renamed));
    assert_eq!(service.fetch_all_users().unwrap().len(), 3);
    assert_eq!(service.delete_user(user.id), Ok(()));
    assert_eq!(service.fetch_all_users().unwrap().len(), 2);
}

#[test]
fn table_operations() {
    let mut table = UserTable::new();
    assert!(table.list().is_empty());
    let user = User {
        id: 42,
        first_name: "A".to_string(),
        last_name: "B".to_string(),
        email: "c".to_string(),
    };
    table.insert(user.clone());
    assert_eq!(table.get(42), Some(user.clone()));
    assert_eq!(table.get(43), None);
    let other = User { id: 43, ..user.clone() };
    assert!(!table.replace(other.clone()));
    assert_eq!(table.get(43), None);
    let renamed = User { first_name: "Z".to_string(), ..user.clone() };
    assert!(table.replace(renamed.clone()));
    assert_eq!(table.get(42), Some(renamed));
    table.insert(other);
    assert_eq!(sorted_ids(&table.list()), vec![42, 43]);
    assert!(table.remove(42));
    assert!(!table.remove(42));
    assert_eq!(sorted_ids(&table.list()), vec![43]);
}

#[test]
fn from_new_user_gives_a_random_v4_id() {
    let a = User::from_new_user(grace());
    let b = User::from_new_user(grace());
    assert_ne!(a.id, b.id);
    assert_eq!(Uuid::from_u128(a.id).get_version_num(), 4);
    assert_eq!(a.email, "grace@example.com");
    let fixed = User::with_id(7, grace());
    assert_eq!(fixed.id, 7);
    assert_eq!(fixed.first_name, "Grace");
}

#[test]
fn replies_follow_the_store() {
    let mut repo = InMemoryUserRepository::new();
    assert_eq!(user_reply(repo.fetch_user_by_id(ALICE_ID)).status, 200);
    assert_eq!(user_reply(repo.fetch_user_by_id(99)).status, 404);
    assert_eq!(deleted_reply(repo.delete_user(ALICE_ID)).status, 204);
    assert_eq!(deleted_reply(repo.delete_user(ALICE_ID)).status, 404);
    let gone = User {
        id: ALICE_ID,
        first_name: "A".to_string(),
        last_name: "S".to_string(),
        email: "a@example.com".to_string(),
    };
    assert_eq!(user_reply(repo.update_user(gone)).status, 404);
}
