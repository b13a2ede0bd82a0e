//! The table of users keyed by id that the in-memory stores keep.
use std::collections::HashMap;
use vstd::prelude::*;
use vstd::std_specs::hash::spec_hash_map_iter;
use vstd::std_specs::iter::IteratorSpec;
use crate::error::{Error, ErrorView};
use crate::models::{NewUserView, User, UserView, user_with_id};
use crate::user_id::{is_random_v4, lemma_pow16_values, pow16};

verus! {

/// Every user is stored under its own id.
pub open spec fn keyed_by_id(m: Map<u128, UserView>) -> bool {
    forall|k: u128| #[trigger] m.contains_key(k) ==> m[k].id == k
}

/// `s` names every user of `m` once, in some order: a permutation of the
/// stored users.
pub open spec fn lists(s: Seq<UserView>, m: Map<u128, UserView>) -> bool {
    &&& s.len() == m.dom().len()
    &&& forall|i: int| 0 <= i < s.len() ==> #[trigger] m.contains_key(s[i].id) && m[s[i].id] == s[i]
    &&& forall|i: int, j: int| 0 <= i < j < s.len() ==> #[trigger] s[i].id != #[trigger] s[j].id
    &&& forall|k: u128| #[trigger] m.contains_key(k) ==> exists|i: int| 0 <= i < s.len() && #[trigger] s[i].id == k
}

/// What a lookup of `id` answers: the stored user, or the error `missing`.
pub open spec fn fetched(m: Map<u128, UserView>, id: u128, missing: ErrorView) -> Result<
    UserView,
    ErrorView,
> {
    if m.contains_key(id) {
        Ok(m[id])
    } else {
        Err(missing)
    }
}

/// The table after `new_user` was added under `id`.
pub open spec fn after_add(m: Map<u128, UserView>, id: u128, new_user: NewUserView) -> Map<
    u128,
    UserView,
> {
    m.insert(id, user_with_id(id, new_user))
}

/// The table after an update with `user`: replaced if its id is stored,
/// else unchanged.
pub open spec fn after_update(m: Map<u128, UserView>, user: UserView) -> Map<u128, UserView> {
    if m.contains_key(user.id) {
        m.insert(user.id, user)
    } else {
        m
    }
}

/// What an update with `user` answers: the user, or `missing` where its id
/// is not stored.
pub open spec fn update_answer(m: Map<u128, UserView>, user: UserView, missing: ErrorView) -> Result<
    UserView,
    ErrorView,
> {
    if m.contains_key(user.id) {
        Ok(user)
    } else {
        Err(missing)
    }
}

/// What a deletion of `id` answers: done, or `missing` where `id` is not stored.
pub open spec fn delete_answer(m: Map<u128, UserView>, id: u128, missing: ErrorView) -> Result<
    (),
    ErrorView,
> {
    if m.contains_key(id) {
        Ok(())
    } else {
        Err(missing)
    }
}

/// A result carrying a user, as mathematical values.
pub open spec fn user_answer(r: Result<User, Error>) -> Result<UserView, ErrorView> {
    match r {
        Ok(u) => Ok(u@),
        Err(e) => Err(e@),
    }
}

/// A result carrying nothing, as mathematical values.
pub open spec fn unit_answer(r: Result<(), Error>) -> Result<(), ErrorView> {
    match r {
        Ok(()) => Ok(()),
        Err(e) => Err(e@),
    }
}

/// The users of a vector as mathematical values.
pub open spec fn views(users: Seq<User>) -> Seq<UserView> {
    users.map_values(|u: User| u@)
}

/// The `k`-th spare id (`0 <= k <= 2^64`): a version-4 UUID of the RFC 4122
/// variant whose low 62 bits hold `k mod 2^62` and bits 64 and up hold
/// `k div 2^62`.
pub open spec fn spare_id(k: int) -> int {
    0x4000_8000_0000_0000_0000 + (k / 0x4000_0000_0000_0000) * 0x1_0000_0000_0000_0000 + k
        % 0x4000_0000_0000_0000
}

/// The spare ids `0..=n`.
pub open spec fn spare_ids(n: nat) -> Set<u128>
    decreases n,
{
    if n == 0 {
        Set::empty().insert(spare_id(0) as u128)
    } else {
        spare_ids((n - 1) as nat).insert(spare_id(n as int) as u128)
    }
}

/// A spare id fits in 128 bits and is a version-4 UUID.
pub proof fn lemma_spare_id_is_v4(k: int)
    requires
        0 <= k <= 0x1_0000_0000_0000_0000,
    ensures
        0 <= spare_id(k) < 0x1_0000_0000_0000_0000_0000_0000_0000_0000,
        is_random_v4(spare_id(k) as u128),
{
    lemma_pow16_values();
    let q = k / 0x4000_0000_0000_0000;
    let r = k % 0x4000_0000_0000_0000;
    assert(0 <= q <= 4);
    assert(0 <= r < 0x4000_0000_0000_0000);
    let v = spare_id(k);
    assert(v == 0x4000_8000_0000_0000_0000 + q * 0x1_0000_0000_0000_0000 + r);
    assert(v / pow16(19) == 4);
    assert(v / (4 * pow16(15)) == 0x1_0002 + 4 * q) by (nonlinear_arith)
        requires
            v == 0x4000_8000_0000_0000_0000 + q * 0x1_0000_0000_0000_0000 + r,
            4 * pow16(15) == 0x4000_0000_0000_0000,
            0 <= r < 0x4000_0000_0000_0000,
    ;
    assert((0x1_0002 + 4 * q) % 4 == 2) by (nonlinear_arith)
        requires
            0 <= q <= 4,
    ;
}

/// Distinct numbers give distinct spare ids.
pub proof fn lemma_spare_id_injective(j: int, k: int)
    requires
        0 <= j < k <= 0x1_0000_0000_0000_0000,
    ensures
        spare_id(j) != spare_id(k),
{
    let qj = j / 0x4000_0000_0000_0000;
    let rj = j % 0x4000_0000_0000_0000;
    let qk = k / 0x4000_0000_0000_0000;
    let rk = k % 0x4000_0000_0000_0000;
    assert(j == qj * 0x4000_0000_0000_0000 + rj);
    assert(k == qk * 0x4000_0000_0000_0000 + rk);
    if qj == qk {
        assert(rj != rk);
    } else {
        assert(qj < qk) by (nonlinear_arith)
            requires
                j == qj * 0x4000_0000_0000_0000 + rj,
                k == qk * 0x4000_0000_0000_0000 + rk,
                0 <= rj < 0x4000_0000_0000_0000,
                0 <= rk < 0x4000_0000_0000_0000,
                j < k,
                qj != qk,
        ;
        assert(qj * 0x1_0000_0000_0000_0000 + rj < qk * 0x1_0000_0000_0000_0000 + rk) by (
        nonlinear_arith)
            requires
                qj < qk,
                0 <= rj < 0x4000_0000_0000_0000,
                0 <= rk,
        ;
    }
}

/// The spare ids `0..=n` are `n + 1` distinct ids, exactly the `spare_id(j)`.
pub proof fn lemma_spare_ids(n: nat)
    requires
        n <= 0x1_0000_0000_0000_0000,
    ensures
        spare_ids(n).finite(),
        spare_ids(n).len() == n + 1,
        forall|j: int| 0 <= j <= n ==> #[trigger] spare_ids(n).contains(spare_id(j) as u128),
        forall|x: u128|
            #[trigger] spare_ids(n).contains(x) ==> exists|j: int|
                0 <= j <= n && x == spare_id(j) as u128,
    decreases n,
{
    if n == 0 {
        assert(spare_ids(0).contains(spare_id(0) as u128));
    } else {
        let m = (n - 1) as nat;
        lemma_spare_ids(m);
        let x = spare_id(n as int) as u128;
        lemma_spare_id_is_v4(n as int);
        if spare_ids(m).contains(x) {
            let j = choose|j: int| 0 <= j <= m && x == spare_id(j) as u128;
            lemma_spare_id_is_v4(j);
            lemma_spare_id_injective(j, n as int);
        }
        assert forall|x: u128| #[trigger] spare_ids(n).contains(x) implies exists|j: int|
            0 <= j <= n && x == spare_id(j) as u128 by {
            if x != spare_id(n as int) as u128 {
                assert(spare_ids(m).contains(x));
            }
        }
    }
}

/// Adding under an id that is not held keeps every held user unchanged,
/// adds exactly the new user, and makes the table one user larger.
pub proof fn law_fresh_add_keeps_every_user(
    m: Map<u128, UserView>,
    id: u128,
    new_user: NewUserView,
    missing: ErrorView,
)
    requires
        m.dom().finite(),
        !m.contains_key(id),
    ensures
        forall|k: u128|
            #[trigger] m.contains_key(k) ==> after_add(m, id, new_user).contains_key(k) && after_add(
                m,
                id,
                new_user,
            )[k] == m[k],
        after_add(m, id, new_user).dom() == m.dom().insert(id),
        after_add(m, id, new_user).dom().len() == m.dom().len() + 1,
        fetched(after_add(m, id, new_user), id, missing) == Ok::<UserView, ErrorView>(
            UserView {
                id: id,
                first_name: new_user.first_name,
                last_name: new_user.last_name,
                email: new_user.email,
            },
        ),
{
    assert(after_add(m, id, new_user).dom() =~= m.dom().insert(id));
}

/// An update of a held user answers that user itself, exactly what a later
/// lookup of its id gives.
pub proof fn law_update_answers_the_new_user(
    m: Map<u128, UserView>,
    user: UserView,
    missing: ErrorView,
)
    requires
        m.contains_key(user.id),
    ensures
        update_answer(m, user, missing) == Ok::<UserView, ErrorView>(user),
        fetched(after_update(m, user), user.id, missing) == update_answer(m, user, missing),
        after_update(m, user).dom() == m.dom(),
{
    assert(after_update(m, user).dom() =~= m.dom());
}

/// A user that was just added is found again under its id, as the user that
/// `new_user` became; the table stays keyed by id.
pub proof fn law_fetch_after_add(
    m: Map<u128, UserView>,
    id: u128,
    new_user: NewUserView,
    missing: ErrorView,
)
    requires
        keyed_by_id(m),
    ensures
        fetched(after_add(m, id, new_user), id, missing) == Ok::<UserView, ErrorView>(
            user_with_id(id, new_user),
        ),
        keyed_by_id(after_add(m, id, new_user)),
{
}

/// After an update of a stored user, a lookup of its id answers the new data.
pub proof fn law_fetch_after_update(m: Map<u128, UserView>, user: UserView, missing: ErrorView)
    requires
        keyed_by_id(m),
        m.contains_key(user.id),
    ensures
        fetched(after_update(m, user), user.id, missing) == Ok::<UserView, ErrorView>(user),
        keyed_by_id(after_update(m, user)),
{
}

/// An update of a user that is not stored changes nothing and is refused
/// with the same answer as a lookup of its id.
pub proof fn law_update_of_unknown_user(m: Map<u128, UserView>, user: UserView, missing: ErrorView)
    requires
        !m.contains_key(user.id),
    ensures
        after_update(m, user) == m,
        update_answer(m, user, missing) == fetched(m, user.id, missing),
{
}

/// After a deletion, a lookup of the deleted id is refused, and so is a second deletion.
pub proof fn law_fetch_after_delete(m: Map<u128, UserView>, id: u128, missing: ErrorView)
    requires
        keyed_by_id(m),
    ensures
        fetched(m.remove(id), id, missing) == Err::<UserView, ErrorView>(missing),
        delete_answer(m.remove(id), id, missing) == Err::<(), ErrorView>(missing),
        keyed_by_id(m.remove(id)),
{
}

/// Adding under a fresh id makes the table one user larger; deleting a
/// stored id makes it one user smaller.
pub proof fn law_sizes(m: Map<u128, UserView>, id: u128, new_user: NewUserView)
    requires
        m.dom().finite(),
    ensures
        !m.contains_key(id) ==> after_add(m, id, new_user).dom().len() == m.dom().len() + 1,
        m.contains_key(id) ==> m.remove(id).dom().len() == m.dom().len() - 1,
        after_add(m, id, new_user).dom().finite(),
{
}

/// Deleting a user that was just added under a fresh id gives back the table as it was.
pub proof fn law_delete_undoes_add(m: Map<u128, UserView>, id: u128, new_user: NewUserView)
    requires
        !m.contains_key(id),
    ensures
        after_add(m, id, new_user).remove(id) == m,
{
    assert(after_add(m, id, new_user).remove(id) =~= m);
}

/// Adding, updating and deleting leave every other user as it was.
pub proof fn law_other_users_untouched(
    m: Map<u128, UserView>,
    other: u128,
    id: u128,
    new_user: NewUserView,
    user: UserView,
    missing: ErrorView,
)
    requires
        other != id,
        other != user.id,
    ensures
        fetched(after_add(m, id, new_user), other, missing) == fetched(m, other, missing),
        fetched(after_update(m, user), other, missing) == fetched(m, other, missing),
        fetched(m.remove(id), other, missing) == fetched(m, other, missing),
{
}

/// A listing of a table holds as many users as the table, and a user is
/// listed exactly when a lookup of its id finds it.
pub proof fn law_listing_agrees_with_lookup(
    s: Seq<UserView>,
    m: Map<u128, UserView>,
    id: u128,
    missing: ErrorView,
)
    requires
        lists(s, m),
    ensures
        s.len() == m.dom().len(),
        (exists|i: int| 0 <= i < s.len() && s[i].id == id) <==> fetched(m, id, missing) is Ok,
        forall|i: int|
            0 <= i < s.len() && s[i].id == id ==> fetched(m, id, missing) == Ok::<
                UserView,
                ErrorView,
            >(s[i]),
{
    if exists|i: int| 0 <= i < s.len() && s[i].id == id {
        let i = choose|i: int| 0 <= i < s.len() && s[i].id == id;
        assert(m.contains_key(s[i].id));
    }
    if m.contains_key(id) {
        assert(exists|i: int| 0 <= i < s.len() && #[trigger] s[i].id == id);
    }
}

/// A table of users keyed by their ids.
pub struct UserTable {
    users: HashMap<u128, User>,
}

impl View for UserTable {
    type V = Map<u128, UserView>;

    closed spec fn view(&self) -> Map<u128, UserView> {
        self.users@.map_values(|u: User| u@)
    }
}

impl UserTable {
    #[verifier::type_invariant]
    spec fn keyed(self) -> bool {
        forall|k: u128| #[trigger] self.users@.contains_key(k) ==> self.users@[k].id == k
    }

    /// The view keeps the key invariant of the hash map, and is finite.
    proof fn lemma_keyed(&self)
        requires
            self.keyed(),
        ensures
            keyed_by_id(self@),
            self@.dom().finite(),
    {
        broadcast use vstd::std_specs::hash::axiom_hashmap_view_finite_dom;
        assert(self@.dom() =~= self.users@.dom());
    }

    /// An empty table.
    pub fn new() -> (table: UserTable)
        ensures
            table@ == Map::<u128, UserView>::empty(),
            keyed_by_id(table@),
            table@.dom().finite(),
    {
        let table = UserTable { users: HashMap::new() };
        assert(table@ =~= Map::<u128, UserView>::empty());
        table
    }

    /// The user stored under `id`, if any.
    pub fn get(&self, id: u128) -> (found: Option<User>)
        ensures
            keyed_by_id(self@),
            self@.dom().finite(),
            match found {
                Some(u) => self@.contains_key(id) && u@ == self@[id] && u.id == id,
                None => !self@.contains_key(id),
            },
    {
        proof {
            use_type_invariant(self);
            self.lemma_keyed();
        }
        match self.users.get(&id) {
            Some(u) => Some(u.clone()),
            None => None,
        }
    }

    /// Every stored user once, in the order in which the hash map is walked.
    pub fn list(&self) -> (users: Vec<User>)
        ensures
            keyed_by_id(self@),
            self@.dom().finite(),
            lists(views(users@), self@),
    {
        proof {
            use_type_invariant(self);
            self.lemma_keyed();
        }
        let ghost m = self.users@;
        let mut users: Vec<User> = Vec::new();
        for entry in it: self.users.iter()
            invariant
                m == self.users@,
                users.len() == it.index(),
                it.seq() == spec_hash_map_iter(&self.users).remaining(),
                forall|i: int| 0 <= i < users.len() ==> #[trigger] users[i]@ == (*it.seq()[i].1)@,
        {
            let (_id, user) = entry;
            users.push(user.clone());
        }
        proof {
            let v = spec_hash_map_iter(&self.users).remaining();
            let s = views(users@);
            assert(s.len() == m.dom().len());
            assert forall|i: int| 0 <= i < s.len() implies #[trigger] self@.contains_key(s[i].id)
                && self@[s[i].id] == s[i] by {
                assert(m.contains_key(*v[i].0) && m[*v[i].0] == *v[i].1);
                assert(users[i]@ == (*v[i].1)@);
            }
            assert forall|i: int, j: int| 0 <= i < j < s.len() implies #[trigger] s[i].id
                != #[trigger] s[j].id by {
                assert(m.contains_key(*v[i].0) && m[*v[i].0] == *v[i].1);
                assert(m.contains_key(*v[j].0) && m[*v[j].0] == *v[j].1);
                assert(users[i]@ == (*v[i].1)@);
                assert(users[j]@ == (*v[j].1)@);
                if s[i].id == s[j].id {
                    assert(v[i] == v[j]);
                }
            }
            assert forall|k: u128| #[trigger] self@.contains_key(k) implies exists|i: int|
                0 <= i < s.len() && #[trigger] s[i].id == k by {
                assert(m.contains_key(k));
                assert(v.contains((&k, &m[k])));
                let i = choose|i: int| 0 <= i < v.len() && v[i] == (&k, &m[k]);
                assert(users[i]@ == (*v[i].1)@);
                assert(s[i].id == k);
            }
            assert(self@.dom() =~= m.dom());
        }
        users
    }

    /// An id that the table does not hold: `candidate` itself where it is
    /// free, else the first spare id that is free (a version-4 UUID).
    pub fn fresh_id(&self, candidate: u128) -> (id: u128)
        ensures
            !self@.contains_key(id),
            !self@.contains_key(candidate) ==> id == candidate,
            id == candidate || is_random_v4(id),
            keyed_by_id(self@),
            self@.dom().finite(),
    {
        proof {
            use_type_invariant(self);
            self.lemma_keyed();
            assert(self@.dom() =~= self.users@.dom());
        }
        if !self.users.contains_key(&candidate) {
            return candidate;
        }
        let n: usize = self.users.len();
        let mut k: u128 = 0;
        while k <= n as u128
            invariant
                0 <= k <= n + 1,
                n == self.users@.dom().len(),
                self.users@.dom().finite(),
                self@.dom() == self.users@.dom(),
                self.users@.contains_key(candidate),
                keyed_by_id(self@),
                self@.dom().finite(),
                forall|j: int| 0 <= j < k ==> #[trigger] self.users@.contains_key(spare_id(j) as u128),
            decreases n + 1 - k,
        {
            proof {
                lemma_spare_id_is_v4(k as int);
            }
            let spare: u128 = 0x4000_8000_0000_0000_0000u128 + (k / 0x4000_0000_0000_0000u128)
                * 0x1_0000_0000_0000_0000u128 + k % 0x4000_0000_0000_0000u128;
            assert(spare == spare_id(k as int) as u128);
            if !self.users.contains_key(&spare) {
                return spare;
            }
            k = k + 1;
        }
        proof {
            lemma_spare_ids(n as nat);
            assert forall|x: u128| spare_ids(n as nat).contains(x) implies self.users@.dom().contains(
                x,
            ) by {
                let j = choose|j: int| 0 <= j <= n && x == spare_id(j) as u128;
                assert(self.users@.contains_key(spare_id(j) as u128));
            }
            vstd::set_lib::lemma_len_subset(spare_ids(n as nat), self.users@.dom());
        }
        candidate
    }

    /// Stores `user` under its id, in place of any user stored there.
    pub fn insert(&mut self, user: User)
        ensures
            final(self)@ == old(self)@.insert(user.id, user@),
            keyed_by_id(final(self)@),
            final(self)@.dom().finite(),
    {
        proof {
            use_type_invariant(&*self);
        }
        let ghost user_view = user@;
        let mut users: HashMap<u128, User> = HashMap::new();
        std::mem::swap(&mut users, &mut self.users);
        let id = user.id;
        users.insert(id, user);
        self.users = users;
        assert(self@ =~= old(self)@.insert(id, user_view));
        proof {
            use_type_invariant(&*self);
            self.lemma_keyed();
        }
    }

    /// Stores `user` in place of the user with its id, if there is one;
    /// says whether there was.
    pub fn replace(&mut self, user: User) -> (replaced: bool)
        ensures
            replaced == old(self)@.contains_key(user.id),
            replaced ==> final(self)@ == old(self)@.insert(user.id, user@),
            !replaced ==> final(self)@ == old(self)@,
            keyed_by_id(final(self)@),
            final(self)@.dom().finite(),
    {
        proof {
            use_type_invariant(&*self);
            self.lemma_keyed();
        }
        if self.users.contains_key(&user.id) {
            self.insert(user);
            true
        } else {
            false
        }
    }

    /// Takes away the user stored under `id`; says whether there was one.
    pub fn remove(&mut self, id: u128) -> (removed: bool)
        ensures
            removed == old(self)@.contains_key(id),
            final(self)@ == old(self)@.remove(id),
            keyed_by_id(final(self)@),
            final(self)@.dom().finite(),
    {
        proof {
            use_type_invariant(&*self);
        }
        let mut users: HashMap<u128, User> = HashMap::new();
        std::mem::swap(&mut users, &mut self.users);
        let removed = users.remove(&id).is_some();
        self.users = users;
        assert(self@ =~= old(self)@.remove(id));
        proof {
            use_type_invariant(&*self);
            self.lemma_keyed();
        }
        removed
    }
}

} // verus!
