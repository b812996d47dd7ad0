//! Response objects of the users handlers.

use vstd::prelude::*;

use crate::shared::role::Role;
use crate::users::model::User;

verus! {

/// The body answered for one listed user; the password hash never leaves the
/// repository.
#[derive(Debug, Clone)]
pub struct FindUserRto {
    pub email: String,
    pub user_name: String,
    pub role: Role,
}

impl FindUserRto {
    /// What the conversion from a user produces.
    pub open spec fn spec_of(user: User) -> FindUserRto {
        FindUserRto { email: user.email, user_name: user.user_name, role: user.role }
    }
}

impl From<User> for FindUserRto {
    fn from(user: User) -> (r: Self) {
        FindUserRto { email: user.email, user_name: user.user_name, role: user.role }
    }
}

impl vstd::std_specs::convert::FromSpecImpl<User> for FindUserRto {
    open spec fn obeys_from_spec() -> bool {
        true
    }

    open spec fn from_spec(user: User) -> Self {
        FindUserRto::spec_of(user)
    }
}

} // verus!
