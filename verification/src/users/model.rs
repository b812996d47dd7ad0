//! The user domain model.

use vstd::prelude::*;

use crate::shared::role::Role;

verus! {

/// A stored user.  Timestamps are unix seconds; the conversion to and from a
/// calendar representation lives with the program around the library.
#[derive(Clone, Debug)]
pub struct User {
    pub uuid: String,
    pub email: String,
    pub user_name: String,
    pub password_hash: String,
    pub role: Role,
    pub created_at: i64,
    pub updated_at: i64,
}

impl User {
    /// An explicit field-by-field copy.  Unlike a derived clone of a type
    /// with owned strings, this one is known to equal the original.
    pub fn duplicate(&self) -> (r: User)
        ensures
            r == *self,
    {
        User {
            uuid: self.uuid.clone(),
            email: self.email.clone(),
            user_name: self.user_name.clone(),
            password_hash: self.password_hash.clone(),
            role: self.role,
            created_at: self.created_at,
            updated_at: self.updated_at,
        }
    }
}

} // verus!
