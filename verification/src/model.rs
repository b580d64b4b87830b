//! Domain model values the validation layer reads: the closed role set and a
//! plain user record as the persistence layer hands it over (timestamps as
//! Unix milliseconds, identifier already rendered as text).

use vstd::prelude::*;

verus! {

/// The closed set of account roles. Only `Admin` and `User` are accepted by
/// the role-update rule; `Moderator` is reserved and rejected there.
#[derive(Clone, Copy, Debug, PartialEq, Eq, Structural)]
pub enum UserRole {
    Admin,
    Moderator,
    User,
}

/// The canonical lower-case rendering of a role.
pub open spec fn spec_role_str(r: UserRole) -> Seq<char> {
    match r {
        UserRole::Admin => "admin"@,
        UserRole::Moderator => "moderator"@,
        UserRole::User => "user"@,
    }
}

impl UserRole {
    /// Renders the role as its canonical lower-case name.
    pub fn to_str(&self) -> (r: &'static str)
        ensures
            r@ == spec_role_str(*self),
    {
        match self {
            UserRole::Admin => "admin",
            UserRole::Moderator => "moderator",
            UserRole::User => "user",
        }
    }
}

/// A raw user record as returned by the persistence layer. `password` holds
/// the password hash; the response DTOs must never carry it outward.
#[derive(Clone, Debug)]
pub struct User {
    pub id: String,
    pub name: String,
    pub email: String,
    pub password: String,
    pub verified: bool,
    pub role: UserRole,
    pub created_at: i64,
    pub updated_at: i64,
}

} // verus!
