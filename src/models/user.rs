//! User accounts and the projection that may leave the system.
use vstd::prelude::*;
use crate::models::task::Timestamp;

verus! {

/// A row of the `users` table.
#[derive(Clone, Debug)]
pub struct User {
    pub id: i64,
    /// Unique among users.
    pub username: String,
    /// Never handed out: see `UserResponse`.
    pub password_hash: String,
    /// Unique among users where present.
    pub email: Option<String>,
    pub created_at: Timestamp,
    pub updated_at: Timestamp,
}

/// The fields supplied to register a user.
#[derive(Clone, Debug)]
pub struct CreateUser {
    pub username: String,
    /// Plain-text password, to be hashed before storage.
    pub password: String,
    pub email: Option<String>,
}

/// The fields supplied to change a user's account data.
#[derive(Clone, Debug)]
pub struct UpdateUser {
    pub username: String,
    pub email: Option<String>,
}

/// A user without the password hash: the only form of a user that crosses
/// the system boundary.
#[derive(Clone, Debug)]
pub struct UserResponse {
    pub id: i64,
    pub username: String,
    pub email: Option<String>,
    pub created_at: Timestamp,
}

/// The projection of `u` that drops its password hash.
pub open spec fn response_of(u: User) -> UserResponse {
    UserResponse { id: u.id, username: u.username, email: u.email, created_at: u.created_at }
}

impl User {
    /// This user without the password hash.
    pub fn to_response(&self) -> (r: UserResponse)
        ensures
            r == response_of(*self),
    {
        UserResponse {
            id: self.id,
            username: self.username.clone(),
            email: match &self.email {
                Some(e) => Some(e.clone()),
                None => None,
            },
            created_at: self.created_at,
        }
    }
}

impl From<User> for UserResponse {
    fn from(user: User) -> (r: UserResponse) {
        UserResponse {
            id: user.id,
            username: user.username,
            email: user.email,
            created_at: user.created_at,
        }
    }
}

impl vstd::std_specs::convert::FromSpecImpl<User> for UserResponse {
    open spec fn obeys_from_spec() -> bool {
        true
    }

    open spec fn from_spec(user: User) -> UserResponse {
        response_of(user)
    }
}

} // verus!
