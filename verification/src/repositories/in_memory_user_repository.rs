//! The user repository that keeps its users in memory.
use vstd::prelude::*;
use crate::error::{Error, ErrorView};
use crate::models::{NewUser, User, UserView, user_with_id};
use crate::store::{
    after_add, after_update, delete_answer, fetched, keyed_by_id, lists, unit_answer,
    update_answer, user_answer, views, UserTable,
};
use crate::user_id::{self, hyphenated, is_random_v4, lemma_pow16_values, nibble};

verus! {

/// Id of the first user a new repository holds (Alice Smith).
pub const ALICE_ID: u128 = 0x151b219c_7fe6_4622_8bd0_d9ed03031a5f;

/// Id of the second user a new repository holds (Bob Johnson).
pub const BOB_ID: u128 = 0x151b219c_7fe6_4622_8bd0_d9ed03031a5e;

/// The users that a new repository holds.
pub open spec fn seed_users() -> Map<u128, UserView> {
    map![
        ALICE_ID => UserView {
            id: ALICE_ID,
            first_name: "Alice"@,
            last_name: "Smith"@,
            email: "alice@example.com"@,
        },
        BOB_ID => UserView {
            id: BOB_ID,
            first_name: "Bob"@,
            last_name: "Johnson"@,
            email: "bob@example.com"@,
        },
    ]
}

/// The texts of the seed ids in the source spell exactly those ids.
pub proof fn lemma_seed_id_texts()
    ensures
        "151b219c-7fe6-4622-8bd0-d9ed03031a5f"@ == hyphenated(ALICE_ID),
        "151b219c-7fe6-4622-8bd0-d9ed03031a5e"@ == hyphenated(BOB_ID),
{
    reveal_strlit("151b219c-7fe6-4622-8bd0-d9ed03031a5f");
    reveal_strlit("151b219c-7fe6-4622-8bd0-d9ed03031a5e");
    lemma_pow16_values();
    assert(hyphenated(ALICE_ID)[0] == '1') by { assert(nibble(ALICE_ID, 0) == 1); }
    assert(hyphenated(ALICE_ID)[1] == '5') by { assert(nibble(ALICE_ID, 1) == 5); }
    assert(hyphenated(ALICE_ID)[2] == '1') by { assert(nibble(ALICE_ID, 2) == 1); }
    assert(hyphenated(ALICE_ID)[3] == 'b') by { assert(nibble(ALICE_ID, 3) == 11); }
    assert(hyphenated(ALICE_ID)[4] == '2') by { assert(nibble(ALICE_ID, 4) == 2); }
    assert(hyphenated(ALICE_ID)[5] == '1') by { assert(nibble(ALICE_ID, 5) == 1); }
    assert(hyphenated(ALICE_ID)[6] == '9') by { assert(nibble(ALICE_ID, 6) == 9); }
    assert(hyphenated(ALICE_ID)[7] == 'c') by { assert(nibble(ALICE_ID, 7) == 12); }
    assert(hyphenated(ALICE_ID)[8] == '-');
    assert(hyphenated(ALICE_ID)[9] == '7') by { assert(nibble(ALICE_ID, 8) == 7); }
    assert(hyphenated(ALICE_ID)[10] == 'f') by { assert(nibble(ALICE_ID, 9) == 15); }
    assert(hyphenated(ALICE_ID)[11] == 'e') by { assert(nibble(ALICE_ID, 10) == 14); }
    assert(hyphenated(ALICE_ID)[12] == '6') by { assert(nibble(ALICE_ID, 11) == 6); }
    assert(hyphenated(ALICE_ID)[13] == '-');
    assert(hyphenated(ALICE_ID)[14] == '4') by { assert(nibble(ALICE_ID, 12) == 4); }
    assert(hyphenated(ALICE_ID)[15] == '6') by { assert(nibble(ALICE_ID, 13) == 6); }
    assert(hyphenated(ALICE_ID)[16] == '2') by { assert(nibble(ALICE_ID, 14) == 2); }
    assert(hyphenated(ALICE_ID)[17] == '2') by { assert(nibble(ALICE_ID, 15) == 2); }
    assert(hyphenated(ALICE_ID)[18] == '-');
    assert(hyphenated(ALICE_ID)[19] == '8') by { assert(nibble(ALICE_ID, 16) == 8); }
    assert(hyphenated(ALICE_ID)[20] == 'b') by { assert(nibble(ALICE_ID, 17) == 11); }
    assert(hyphenated(ALICE_ID)[21] == 'd') by { assert(nibble(ALICE_ID, 18) == 13); }
    assert(hyphenated(ALICE_ID)[22] == '0') by { assert(nibble(ALICE_ID, 19) == 0); }
    assert(hyphenated(ALICE_ID)[23] == '-');
    assert(hyphenated(ALICE_ID)[24] == 'd') by { assert(nibble(ALICE_ID, 20) == 13); }
    assert(hyphenated(ALICE_ID)[25] == '9') by { assert(nibble(ALICE_ID, 21) == 9); }
    assert(hyphenated(ALICE_ID)[26] == 'e') by { assert(nibble(ALICE_ID, 22) == 14); }
    assert(hyphenated(ALICE_ID)[27] == 'd') by { assert(nibble(ALICE_ID, 23) == 13); }
    assert(hyphenated(ALICE_ID)[28] == '0') by { assert(nibble(ALICE_ID, 24) == 0); }
    assert(hyphenated(ALICE_ID)[29] == '3') by { assert(nibble(ALICE_ID, 25) == 3); }
    assert(hyphenated(ALICE_ID)[30] == '0') by { assert(nibble(ALICE_ID, 26) == 0); }
    assert(hyphenated(ALICE_ID)[31] == '3') by { assert(nibble(ALICE_ID, 27) == 3); }
    assert(hyphenated(ALICE_ID)[32] == '1') by { assert(nibble(ALICE_ID, 28) == 1); }
    assert(hyphenated(ALICE_ID)[33] == 'a') by { assert(nibble(ALICE_ID, 29) == 10); }
    assert(hyphenated(ALICE_ID)[34] == '5') by { assert(nibble(ALICE_ID, 30) == 5); }
    assert(hyphenated(ALICE_ID)[35] == 'f') by { assert(nibble(ALICE_ID, 31) == 15); }
    assert(hyphenated(BOB_ID)[0] == '1') by { assert(nibble(BOB_ID, 0) == 1); }
    assert(hyphenated(BOB_ID)[1] == '5') by { assert(nibble(BOB_ID, 1) == 5); }
    assert(hyphenated(BOB_ID)[2] == '1') by { assert(nibble(BOB_ID, 2) == 1); }
    assert(hyphenated(BOB_ID)[3] == 'b') by { assert(nibble(BOB_ID, 3) == 11); }
    assert(hyphenated(BOB_ID)[4] == '2') by { assert(nibble(BOB_ID, 4) == 2); }
    assert(hyphenated(BOB_ID)[5] == '1') by { assert(nibble(BOB_ID, 5) == 1); }
    assert(hyphenated(BOB_ID)[6] == '9') by { assert(nibble(BOB_ID, 6) == 9); }
    assert(hyphenated(BOB_ID)[7] == 'c') by { assert(nibble(BOB_ID, 7) == 12); }
    assert(hyphenated(BOB_ID)[8] == '-');
    assert(hyphenated(BOB_ID)[9] == '7') by { assert(nibble(BOB_ID, 8) == 7); }
    assert(hyphenated(BOB_ID)[10] == 'f') by { assert(nibble(BOB_ID, 9) == 15); }
    assert(hyphenated(BOB_ID)[11] == 'e') by { assert(nibble(BOB_ID, 10) == 14); }
    assert(hyphenated(BOB_ID)[12] == '6') by { assert(nibble(BOB_ID, 11) == 6); }
    assert(hyphenated(BOB_ID)[13] == '-');
    assert(hyphenated(BOB_ID)[14] == '4') by { assert(nibble(BOB_ID, 12) == 4); }
    assert(hyphenated(BOB_ID)[15] == '6') by { assert(nibble(BOB_ID, 13) == 6); }
    assert(hyphenated(BOB_ID)[16] == '2') by { assert(nibble(BOB_ID, 14) == 2); }
    assert(hyphenated(BOB_ID)[17] == '2') by { assert(nibble(BOB_ID, 15) == 2); }
    assert(hyphenated(BOB_ID)[18] == '-');
    assert(hyphenated(BOB_ID)[19] == '8') by { assert(nibble(BOB_ID, 16) == 8); }
    assert(hyphenated(BOB_ID)[20] == 'b') by { assert(nibble(BOB_ID, 17) == 11); }
    assert(hyphenated(BOB_ID)[21] == 'd') by { assert(nibble(BOB_ID, 18) == 13); }
    assert(hyphenated(BOB_ID)[22] == '0') by { assert(nibble(BOB_ID, 19) == 0); }
    assert(hyphenated(BOB_ID)[23] == '-');
    assert(hyphenated(BOB_ID)[24] == 'd') by { assert(nibble(BOB_ID, 20) == 13); }
    assert(hyphenated(BOB_ID)[25] == '9') by { assert(nibble(BOB_ID, 21) == 9); }
    assert(hyphenated(BOB_ID)[26] == 'e') by { assert(nibble(BOB_ID, 22) == 14); }
    assert(hyphenated(BOB_ID)[27] == 'd') by { assert(nibble(BOB_ID, 23) == 13); }
    assert(hyphenated(BOB_ID)[28] == '0') by { assert(nibble(BOB_ID, 24) == 0); }
    assert(hyphenated(BOB_ID)[29] == '3') by { assert(nibble(BOB_ID, 25) == 3); }
    assert(hyphenated(BOB_ID)[30] == '0') by { assert(nibble(BOB_ID, 26) == 0); }
    assert(hyphenated(BOB_ID)[31] == '3') by { assert(nibble(BOB_ID, 27) == 3); }
    assert(hyphenated(BOB_ID)[32] == '1') by { assert(nibble(BOB_ID, 28) == 1); }
    assert(hyphenated(BOB_ID)[33] == 'a') by { assert(nibble(BOB_ID, 29) == 10); }
    assert(hyphenated(BOB_ID)[34] == '5') by { assert(nibble(BOB_ID, 30) == 5); }
    assert(hyphenated(BOB_ID)[35] == 'e') by { assert(nibble(BOB_ID, 31) == 14); }
    assert("151b219c-7fe6-4622-8bd0-d9ed03031a5f"@ =~= hyphenated(ALICE_ID));
    assert("151b219c-7fe6-4622-8bd0-d9ed03031a5e"@ =~= hyphenated(BOB_ID));
}

/// The error of this repository for an id that it does not hold.
pub open spec fn missing(id: u128) -> ErrorView {
    ErrorView::NotFound("User "@ + hyphenated(id) + " not found"@)
}

/// Users held in memory, keyed by id.
pub struct InMemoryUserRepository {
    users: UserTable,
}

impl View for InMemoryUserRepository {
    type V = Map<u128, UserView>;

    closed spec fn view(&self) -> Map<u128, UserView> {
        self.users@
    }
}

fn not_found(id: u128) -> (e: Error)
    ensures
        e@ == missing(id),
{
    Error::NotFound(user_id::id_in_text("User ", id, " not found"))
}

impl InMemoryUserRepository {
    /// A repository that holds Alice Smith and Bob Johnson.
    pub fn new() -> (repo: Self)
        ensures
            repo@ == seed_users(),
            keyed_by_id(repo@),
            repo@.dom().finite(),
    {
        proof {
            lemma_seed_id_texts();
        }
        let alice_id = user_id::parse_uuid("151b219c-7fe6-4622-8bd0-d9ed03031a5f").unwrap();
        let bob_id = user_id::parse_uuid("151b219c-7fe6-4622-8bd0-d9ed03031a5e").unwrap();
        let mut users = UserTable::new();
        users.insert(
            User {
                id: alice_id,
                first_name: "Alice".to_owned(),
                last_name: "Smith".to_owned(),
                email: "alice@example.com".to_owned(),
            },
        );
        users.insert(
            User {
                id: bob_id,
                first_name: "Bob".to_owned(),
                last_name: "Johnson".to_owned(),
                email: "bob@example.com".to_owned(),
            },
        );
        let repo = InMemoryUserRepository { users };
        assert(repo@ =~= seed_users());
        repo
    }

    /// The user with id `user_id`, or `NotFound("User <id> not found")`.
    pub fn fetch_user_by_id(&self, user_id: u128) -> (r: Result<User, Error>)
        ensures
            user_answer(r) == fetched(self@, user_id, missing(user_id)),
            self@.contains_key(user_id) ==> (r matches Ok(u) && u@ == self@[user_id] && u.id
                == user_id),
            !self@.contains_key(user_id) ==> (r matches Err(e) && e@ == ErrorView::NotFound(
                "User "@ + hyphenated(user_id) + " not found"@,
            )),
            keyed_by_id(self@),
            self@.dom().finite(),
    {
        match self.users.get(user_id) {
            Some(user) => Ok(user),
            None => Err(not_found(user_id)),
        }
    }

    /// Every held user once, in the order in which the map is walked.
    pub fn fetch_all_users(&self) -> (r: Result<Vec<User>, Error>)
        ensures
            r matches Ok(users) && lists(views(users@), self@),
            keyed_by_id(self@),
            self@.dom().finite(),
    {
        Ok(self.users.list())
    }

    /// Adds `new_user` under a fresh random id and answers the new user.
    pub fn add_user(&mut self, new_user: NewUser) -> (r: Result<User, Error>)
        ensures
            r matches Ok(user) && user@ == user_with_id(user.id, new_user@) && is_random_v4(user.id)
                && final(self)@ == after_add(old(self)@, user.id, new_user@),
            r matches Ok(user) && !old(self)@.contains_key(user.id) && final(self)@.contains_key(
                user.id,
            ) && final(self)@[user.id] == user@,
            forall|k: u128|
                #[trigger] old(self)@.contains_key(k) ==> final(self)@.contains_key(k)
                    && final(self)@[k] == old(self)@[k],
            final(self)@.dom().len() == old(self)@.dom().len() + 1,
            keyed_by_id(final(self)@),
            final(self)@.dom().finite(),
    {
        let id = self.users.fresh_id(user_id::new_v4());
        self.add_user_with_id(id, new_user)
    }

    /// Adds `new_user` under the id `id` (in place of any user held there)
    /// and answers the new user.
    pub fn add_user_with_id(&mut self, id: u128, new_user: NewUser) -> (r: Result<User, Error>)
        ensures
            r matches Ok(user) && user@ == user_with_id(id, new_user@),
            final(self)@ == after_add(old(self)@, id, new_user@),
            keyed_by_id(final(self)@),
            final(self)@.dom().finite(),
    {
        let user = User::with_id(id, new_user);
        self.users.insert(user.clone());
        Ok(user)
    }

    /// Replaces the held user with the id of `user` and answers `user`;
    /// `NotFound("User <id> not found")`, with nothing changed, where that id
    /// is not held.
    pub fn update_user(&mut self, user: User) -> (r: Result<User, Error>)
        ensures
            user_answer(r) == update_answer(old(self)@, user@, missing(user.id)),
            old(self)@.contains_key(user.id) ==> (r matches Ok(u) && u@ == user@)
                && final(self)@.contains_key(user.id) && final(self)@[user.id] == user@,
            !old(self)@.contains_key(user.id) ==> (r matches Err(e) && e@ == ErrorView::NotFound(
                "User "@ + hyphenated(user.id) + " not found"@,
            )) && final(self)@ == old(self)@,
            final(self)@ == after_update(old(self)@, user@),
            keyed_by_id(final(self)@),
            final(self)@.dom().finite(),
    {
        let id = user.id;
        if self.users.replace(user.clone()) {
            Ok(user)
        } else {
            Err(not_found(id))
        }
    }

    /// Removes the user with id `user_id`; `NotFound("User <id> not found")`
    /// where it is not held.
    pub fn delete_user(&mut self, user_id: u128) -> (r: Result<(), Error>)
        ensures
            unit_answer(r) == delete_answer(old(self)@, user_id, missing(user_id)),
            (r is Ok) == old(self)@.contains_key(user_id),
            !final(self)@.contains_key(user_id),
            final(self)@ == old(self)@.remove(user_id),
            keyed_by_id(final(self)@),
            final(self)@.dom().finite(),
    {
        if self.users.remove(user_id) {
            Ok(())
        } else {
            Err(not_found(user_id))
        }
    }
}

impl Default for InMemoryUserRepository {
    fn default() -> (repo: Self)
        ensures
            repo@ == seed_users(),
    {
        Self::new()
    }
}

} // verus!
