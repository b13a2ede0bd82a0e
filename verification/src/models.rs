//! The user records that the service stores and exchanges.
use vstd::prelude::*;
use crate::user_id;

verus! {

/// A stored user; `id` is the UUID as its 128-bit value.
#[derive(Debug, PartialEq, Eq)]
pub struct User {
    pub id: u128,
    pub first_name: String,
    pub last_name: String,
    pub email: String,
}

/// The data of a user that is yet to be given an id.
#[derive(Debug, PartialEq, Eq)]
pub struct NewUser {
    pub first_name: String,
    pub last_name: String,
    pub email: String,
}

/// A user as mathematical values.
pub struct UserView {
    pub id: u128,
    pub first_name: Seq<char>,
    pub last_name: Seq<char>,
    pub email: Seq<char>,
}

/// A new user as mathematical values.
pub struct NewUserView {
    pub first_name: Seq<char>,
    pub last_name: Seq<char>,
    pub email: Seq<char>,
}

impl View for User {
    type V = UserView;

    open spec fn view(&self) -> UserView {
        UserView {
            id: self.id,
            first_name: self.first_name@,
            last_name: self.last_name@,
            email: self.email@,
        }
    }
}

impl View for NewUser {
    type V = NewUserView;

    open spec fn view(&self) -> NewUserView {
        NewUserView { first_name: self.first_name@, last_name: self.last_name@, email: self.email@ }
    }
}

/// The user that a new user becomes under a given id.
pub open spec fn user_with_id(id: u128, new_user: NewUserView) -> UserView {
    UserView {
        id: id,
        first_name: new_user.first_name,
        last_name: new_user.last_name,
        email: new_user.email,
    }
}

impl Clone for User {
    fn clone(&self) -> (copy: Self)
        ensures
            copy@ == self@,
    {
        User {
            id: self.id,
            first_name: self.first_name.clone(),
            last_name: self.last_name.clone(),
            email: self.email.clone(),
        }
    }
}

impl Clone for NewUser {
    fn clone(&self) -> (copy: Self)
        ensures
            copy@ == self@,
    {
        NewUser {
            first_name: self.first_name.clone(),
            last_name: self.last_name.clone(),
            email: self.email.clone(),
        }
    }
}

impl User {
    /// The user with the given id and the names and email of `new_user`.
    pub fn with_id(id: u128, new_user: NewUser) -> (user: User)
        ensures
            user@ == user_with_id(id, new_user@),
    {
        User {
            id,
            first_name: new_user.first_name,
            last_name: new_user.last_name,
            email: new_user.email,
        }
    }

    /// Makes a user of `new_user` under a fresh random (version 4) UUID.
    pub fn from_new_user(new_user: NewUser) -> (user: User)
        ensures
            user@ == user_with_id(user.id, new_user@),
            user_id::is_random_v4(user.id),
    {
        let id = user_id::new_v4();
        User::with_id(id, new_user)
    }
}

} // verus!
