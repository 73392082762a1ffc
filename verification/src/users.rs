//! Structs with named fields: a user record, its builder, and a
//! unit-like struct with no fields at all.

use vstd::prelude::*;

verus! {

/// An account record: whether it is active, who owns it, where mail
/// goes, and how often they have signed in.
#[derive(Debug)]
pub struct User {
    pub active: bool,
    pub username: String,
    pub email: String,
    pub sign_in_count: u64,
}

/// Builds a fresh user record from an email address and a username:
/// active from the start, with a single sign-in on the counter.
pub fn build_user(email: String, username: String) -> (user: User)
    ensures
        user.active == true,
        user.username == username,
        user.email == email,
        user.sign_in_count == 1,
{
    User { active: true, username, email, sign_in_count: 1 }
}

/// A struct with no fields at all, behaving like the unit type.
#[derive(Debug, PartialEq, Eq, Structural)]
pub struct AlwaysEqual;

/// Conjures a unit-like struct value; there is nothing to it, which is
/// the point.
pub fn _unit_like_structs_without_any_fields() {
    let _subject = AlwaysEqual;
}

} // verus!
