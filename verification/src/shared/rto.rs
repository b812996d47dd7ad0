//! Response objects shared across handlers.

use vstd::prelude::*;

use crate::users::model::User;

verus! {

/// The body answered for a freshly created resource.
#[derive(Debug, Clone)]
pub struct CreatedRto {
    pub uuid: String,
}

impl CreatedRto {
    /// What the conversion from a user produces.
    pub open spec fn spec_of(user: User) -> CreatedRto {
        CreatedRto { uuid: user.uuid }
    }
}

impl From<User> for CreatedRto {
    fn from(user: User) -> (r: Self) {
        CreatedRto { uuid: user.uuid }
    }
}

impl vstd::std_specs::convert::FromSpecImpl<User> for CreatedRto {
    open spec fn obeys_from_spec() -> bool {
        true
    }

    open spec fn from_spec(user: User) -> Self {
        CreatedRto::spec_of(user)
    }
}

} // verus!
