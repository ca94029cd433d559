//! What the server keeps of a user in the store, and what it makes of what
//! the store gives back. The store itself is reached by the program around
//! the library.

use crate::models::{
    holds_user, stored_fields, stored_key, User, FIELD_NAME, FIELD_PASSWORD, FIELD_USERNAME,
};
use std::collections::HashMap;
use vstd::prelude::*;
use vstd::std_specs::hash::*;
use vstd::string::*;

verus! {

broadcast use vstd::std_specs::hash::group_hash_axioms;

/// Why the store did not do what it was asked.
#[derive(Debug)]
pub struct StoreError {
    pub message: String,
}

/// What a stored hash means: no user where it is empty, else the user whose
/// fields it holds.
pub open spec fn user_found(hash: Map<u8, String>) -> Result<User, Seq<char>> {
    if hash.is_empty() {
        Err("User Not Found"@)
    } else {
        Ok(
            User {
                name: hash[FIELD_NAME],
                username: hash[FIELD_USERNAME],
                password: hash[FIELD_PASSWORD],
            },
        )
    }
}

/// What to write to the store for a new user: the key, which is the username,
/// and under it the three fields, each with its number.
pub fn create_user(user: User) -> (stored: (String, Vec<(u8, String)>))
    ensures
        stored.0 == stored_key(user),
        stored.1@ == stored_fields(user),
{
    user.get_hash()
}

/// What the store's answer for a key means. The store answers with the hash
/// under the key, which is empty where nothing is stored there: then there is
/// no such user.
pub fn get_user(hash: HashMap<u8, String>) -> (r: Result<User, StoreError>)
    requires
        hash@.is_empty() || holds_user(hash@),
    ensures
        match r {
            Ok(user) => user_found(hash@) == Ok::<User, Seq<char>>(user),
            Err(error) => user_found(hash@) == Err::<User, Seq<char>>(error.message@),
        },
{
    if hash.is_empty() {
        return Err(StoreError { message: String::from_str("User Not Found") });
    }
    Ok(User::from_hash(hash))
}

} // verus!
