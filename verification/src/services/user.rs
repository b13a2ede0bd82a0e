//! The user service that keeps its users in memory itself.
use vstd::prelude::*;
use crate::error::{Error, ErrorView};
use crate::models::{NewUser, User, UserView, user_with_id};
use crate::store::{
    after_add, after_update, delete_answer, fetched, keyed_by_id, lists, unit_answer,
    update_answer, user_answer, views, UserTable,
};
use crate::repositories::in_memory_user_repository::{lemma_seed_id_texts, seed_users};
use crate::user_id::{self, hyphenated, is_random_v4};

verus! {

/// The error of this service for an id that it does not hold.
pub open spec fn missing(id: u128) -> ErrorView {
    ErrorView::NotFound("User with id "@ + hyphenated(id) + " not found"@)
}

/// A user service that holds its users in memory, keyed by id.
pub struct UserService {
    users: UserTable,
}

impl View for UserService {
    type V = Map<u128, UserView>;

    closed spec fn view(&self) -> Map<u128, UserView> {
        self.users@
    }
}

fn not_found(id: u128) -> (e: Error)
    ensures
        e@ == missing(id),
{
    Error::NotFound(user_id::id_in_text("User with id ", id, " not found"))
}

impl UserService {
    /// A service that holds Alice Smith and Bob Johnson.
    pub fn new() -> (repo: Self)
        ensures
            repo@ == seed_users(),
            keyed_by_id(repo@),
            repo@.dom().finite(),
    {
        proof {
            lemma_seed_id_texts();
        }
        let alice_id = user_id::parse_uuid("151b219c-7fe6-4622-8bd0-d9ed03031a5f").unwrap();
        let bob_id = user_id::parse_uuid("151b219c-7fe6-4622-8bd0-d9ed03031a5e").unwrap();
        let mut users = UserTable::new();
        users.insert(
            User {
                id: alice_id,
                first_name: "Alice".to_owned(),
                last_name: "Smith".to_owned(),
                email: "alice@example.com".to_owned(),
            },
        );
        users.insert(
            User {
                id: bob_id,
                first_name: "Bob".to_owned(),
                last_name: "Johnson".to_owned(),
                email: "bob@example.com".to_owned(),
            },
        );
        let repo = UserService { users };
        assert(repo@ =~= seed_users());
        repo
    }

    /// The user with id `user_id`, or `NotFound("User with id <id> not found")`.
    pub fn fetch_user_by_id(&self, user_id: u128) -> (r: Result<User, Error>)
        ensures
            user_answer(r) == fetched(self@, user_id, missing(user_id)),
            self@.contains_key(user_id) ==> (r matches Ok(u) && u@ == self@[user_id] && u.id
                == user_id),
            !self@.contains_key(user_id) ==> (r matches Err(e) && e@ == ErrorView::NotFound(
                "User with id "@ + hyphenated(user_id) + " not found"@,
            )),
            keyed_by_id(self@),
            self@.dom().finite(),
    {
        match self.users.get(user_id) {
            Some(user) => Ok(user),
            None => Err(not_found(user_id)),
        }
    }

    /// Every held user once, in the order in which the map is walked.
    pub fn fetch_all_users(&self) -> (r: Result<Vec<User>, Error>)
        ensures
            r matches Ok(users) && lists(views(users@), self@),
            keyed_by_id(self@),
            self@.dom().finite(),
    {
        Ok(self.users.list())
    }

    /// Adds `new_user` under a fresh random id and answers the new user.
    pub fn add_user(&mut self, new_user: NewUser) -> (r: Result<User, Error>)
        ensures
            r matches Ok(user) && user@ == user_with_id(user.id, new_user@) && is_random_v4(user.id)
                && final(self)@ == after_add(old(self)@, user.id, new_user@),
            r matches Ok(user) && !old(self)@.contains_key(user.id) && final(self)@.contains_key(
                user.id,
            ) && final(self)@[user.id] == user@,
            forall|k: u128|
                #[trigger] old(self)@.contains_key(k) ==> final(self)@.contains_key(k)
                    && final(self)@[k] == old(self)@[k],
            final(self)@.dom().len() == old(self)@.dom().len() + 1,
            keyed_by_id(final(self)@),
            final(self)@.dom().finite(),
    {
        let id = self.users.fresh_id(user_id::new_v4());
        self.add_user_with_id(id, new_user)
    }

    /// Adds `new_user` under the id `id` (in place of any user held there)
    /// and answers the new user.
    pub fn add_user_with_id(&mut self, id: u128, new_user: NewUser) -> (r: Result<User, Error>)
        ensures
            r matches Ok(user) && user@ == user_with_id(id, new_user@),
            final(self)@ == after_add(old(self)@, id, new_user@),
            keyed_by_id(final(self)@),
            final(self)@.dom().finite(),
    {
        let user = User::with_id(id, new_user);
        self.users.insert(user.clone());
        Ok(user)
    }

    /// Replaces the held user with the id of `user` and answers `user`;
    /// `NotFound("User with id <id> not found")`, with nothing changed, where that id
    /// is not held.
    pub fn update_user(&mut self, user: User) -> (r: Result<User, Error>)
        ensures
            user_answer(r) == update_answer(old(self)@, user@, missing(user.id)),
            old(self)@.contains_key(user.id) ==> (r matches Ok(u) && u@ == user@)
                && final(self)@.contains_key(user.id) && final(self)@[user.id] == user@,
            !old(self)@.contains_key(user.id) ==> (r matches Err(e) && e@ == ErrorView::NotFound(
                "User with id "@ + hyphenated(user.id) + " not found"@,
            )) && final(self)@ == old(self)@,
            final(self)@ == after_update(old(self)@, user@),
            keyed_by_id(final(self)@),
            final(self)@.dom().finite(),
    {
        let id = user.id;
        if self.users.replace(user.clone()) {
            Ok(user)
        } else {
            Err(not_found(id))
        }
    }

    /// Removes the user with id `user_id`; `NotFound("User with id <id> not found")`
    /// where it is not held.
    pub fn delete_user(&mut self, user_id: u128) -> (r: Result<(), Error>)
        ensures
            unit_answer(r) == delete_answer(old(self)@, user_id, missing(user_id)),
            (r is Ok) == old(self)@.contains_key(user_id),
            !final(self)@.contains_key(user_id),
            final(self)@ == old(self)@.remove(user_id),
            keyed_by_id(final(self)@),
            final(self)@.dom().finite(),
    {
        if self.users.remove(user_id) {
            Ok(())
        } else {
            Err(not_found(user_id))
        }
    }
}

impl Default for UserService {
    fn default() -> (repo: Self)
        ensures
            repo@ == seed_users(),
    {
        Self::new()
    }
}

} // verus!
