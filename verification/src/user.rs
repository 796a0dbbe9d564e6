//! The user record, its validation rules, and the constructor that applies
//! them.

use vstd::prelude::*;
use crate::text::{contains_char, str_is_blank, trimmed};

verus! {

/// A user record. An `id` of 0 marks a record that no store has given an
/// identifier yet.
#[derive(Debug)]
pub struct User {
    pub id: u64,
    pub name: String,
    pub email: String,
    pub active: bool,
}

/// The mathematical value of a [`User`]: its texts as sequences of
/// characters.
pub struct UserView {
    pub id: u64,
    pub name: Seq<char>,
    pub email: Seq<char>,
    pub active: bool,
}

impl View for User {
    type V = UserView;

    open spec fn view(&self) -> UserView {
        UserView { id: self.id, name: self.name@, email: self.email@, active: self.active }
    }
}

impl Clone for User {
    fn clone(&self) -> (copy: User)
        ensures
            copy@ == self@,
    {
        User {
            id: self.id,
            name: self.name.clone(),
            email: self.email.clone(),
            active: self.active,
        }
    }
}

/// The roles a user can hold.
#[derive(Debug)]
pub enum UserRole {
    Admin,
    Editor,
    Viewer,
}

/// The identifier of a record that has not been stored yet.
pub open spec fn unassigned_id() -> u64 {
    0
}

/// An address is accepted when it holds an `@` and a `.`, wherever they
/// stand.
pub open spec fn is_valid_email(email: Seq<char>) -> bool {
    email.contains('@') && email.contains('.')
}

/// A name is accepted when something is left of it after trimming.
pub open spec fn is_valid_name(name: Seq<char>) -> bool {
    trimmed(name).len() > 0
}

/// The message of the error for a name that trims to nothing.
pub open spec fn blank_name_message() -> Seq<char> {
    "Name cannot be empty"@
}

/// The message of the error for an address that is not accepted.
pub open spec fn invalid_email_message() -> Seq<char> {
    "Invalid email format"@
}

/// The record that creating a user from an accepted `name` and `email`
/// gives: active, without an identifier, holding both texts as they were
/// passed.
pub open spec fn fresh_user(name: Seq<char>, email: Seq<char>) -> UserView {
    UserView { id: unassigned_id(), name, email, active: true }
}

/// Whether `email` holds both an `@` and a `.`.
pub fn validate_email(email: &str) -> (valid: bool)
    ensures
        valid == is_valid_email(email@),
{
    contains_char(email, '@') && contains_char(email, '.')
}

/// Builds a user from a name and an address. The name is examined first,
/// then the address; the record holds the name untrimmed.
pub fn create_user(name: String, email: String) -> (created: Result<User, String>)
    ensures
        is_valid_name(name@) && is_valid_email(email@) ==> (created matches Ok(user) && user@
            == fresh_user(name@, email@)),
        !is_valid_name(name@) ==> (created matches Err(message) && message@
            == blank_name_message()),
        is_valid_name(name@) && !is_valid_email(email@) ==> (created matches Err(message)
            && message@ == invalid_email_message()),
{
    if str_is_blank(name.as_str()) {
        return Err("Name cannot be empty".to_string());
    }
    if !validate_email(email.as_str()) {
        return Err("Invalid email format".to_string());
    }
    Ok(User { id: 0, name, email, active: true })
}

} // verus!
