//! Accounts and their public shape.
use vstd::prelude::*;
use crate::ids::{Oid, hex_of};

verus! {

/// The one global role: a System Admin manages system metadata and cannot
/// read ticket data of groups they don't belong to.
#[derive(Debug, Clone, Copy, PartialEq, Eq, Structural)]
pub enum GlobalRole {
    Admin,
}

/// A stored account. `created_at` is in milliseconds since the epoch.
#[derive(Debug, Clone)]
pub struct User {
    pub id: Option<Oid>,
    pub email: String,
    pub password_hash: String,
    pub name: String,
    pub global_role: Option<GlobalRole>,
    pub created_at: i64,
}

/// What an account is created from.
#[derive(Debug, Clone)]
pub struct CreateUserInput {
    pub email: String,
    pub name: String,
    pub password_hash: String,
}

/// An account as clients see it: never the password hash.
#[derive(Debug, Clone)]
pub struct UserResponse {
    pub id: String,
    pub email: String,
    pub name: String,
    pub global_role: Option<GlobalRole>,
    pub created_at: i64,
}

/// The text an optional id is shown as: its hex digits, or empty when absent.
pub open spec fn opt_id_text(id: Option<Oid>) -> Seq<char> {
    match id {
        Some(o) => hex_of(o.value as nat, 24),
        None => Seq::empty(),
    }
}

/// `id.to_hex()`, or the empty string for an absent id.
pub fn opt_id_string(id: Option<Oid>) -> (s: String)
    ensures
        s@ == opt_id_text(id),
{
    match id {
        Some(o) => o.to_hex(),
        None => String::new(),
    }
}

impl UserResponse {
    /// The public shape of `user`.
    pub fn from_user(user: User) -> (r: UserResponse)
        ensures
            r.id@ == opt_id_text(user.id),
            r.email@ == user.email@,
            r.name@ == user.name@,
            r.global_role == user.global_role,
            r.created_at == user.created_at,
    {
        UserResponse {
            id: opt_id_string(user.id),
            email: user.email,
            name: user.name,
            global_role: user.global_role,
            created_at: user.created_at,
        }
    }
}

} // verus!
