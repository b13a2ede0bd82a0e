//! The routes of the user API.
use vstd::prelude::*;

verus! {

/// An HTTP method that the API serves.
#[derive(Clone, Copy, Debug, PartialEq, Eq)]
pub enum Method {
    Get,
    Post,
    Put,
    Delete,
}

/// What a route does.
#[derive(Clone, Copy, Debug, PartialEq, Eq)]
pub enum Endpoint {
    /// `GET /users`
    ListUsers,
    /// `POST /users`
    CreateUser,
    /// `GET /users/{id}`
    GetUser,
    /// `PUT /users/{id}`
    UpdateUser,
    /// `DELETE /users/{id}`
    DeleteUser,
}

/// The router of the user API.
pub struct UserRoute {}

/// The path pattern of the collection of users.
pub open spec fn users_path() -> Seq<char> {
    "/users"@
}

/// The path pattern of one user.
pub open spec fn user_path() -> Seq<char> {
    "/users/{id}"@
}

impl UserRoute {
    /// The routes, in the order in which they are registered: method, path
    /// pattern and endpoint.
    pub fn routes() -> (routes: Vec<(Method, &'static str, Endpoint)>)
        ensures
            routes@.len() == 5,
            routes@[0].0 == Method::Get && routes@[0].1@ == users_path() && routes@[0].2
                == Endpoint::ListUsers,
            routes@[1].0 == Method::Post && routes@[1].1@ == users_path() && routes@[1].2
                == Endpoint::CreateUser,
            routes@[2].0 == Method::Get && routes@[2].1@ == user_path() && routes@[2].2
                == Endpoint::GetUser,
            routes@[3].0 == Method::Put && routes@[3].1@ == user_path() && routes@[3].2
                == Endpoint::UpdateUser,
            routes@[4].0 == Method::Delete && routes@[4].1@ == user_path() && routes@[4].2
                == Endpoint::DeleteUser,
    {
        let users: &'static str = "/users";
        let user: &'static str = "/users/{id}";
        let mut routes: Vec<(Method, &'static str, Endpoint)> = Vec::new();
        routes.push((Method::Get, users, Endpoint::ListUsers));
        routes.push((Method::Post, users, Endpoint::CreateUser));
        routes.push((Method::Get, user, Endpoint::GetUser));
        routes.push((Method::Put, user, Endpoint::UpdateUser));
        routes.push((Method::Delete, user, Endpoint::DeleteUser));
        routes
    }
}

} // verus!
