//! User roles and their wire names.

use vstd::prelude::*;

use crate::shared::text::str_eq;

verus! {

/// The role attached to a user account.
#[derive(Debug, Clone, Copy, PartialEq, Eq, Structural)]
pub enum Role {
    Admin,
    Manager,
    Driver,
    Customer,
}

impl Role {
    /// The wire name of a role, as it appears in request and response bodies.
    pub open spec fn spec_name(self) -> Seq<char> {
        match self {
            Role::Admin => "admin"@,
            Role::Manager => "manager"@,
            Role::Driver => "driver"@,
            Role::Customer => "customer"@,
        }
    }

    /// Returns the wire name of this role.
    pub fn name(&self) -> (r: &'static str)
        ensures
            r@ == self.spec_name(),
    {
        match self {
            Role::Admin => "admin",
            Role::Manager => "manager",
            Role::Driver => "driver",
            Role::Customer => "customer",
        }
    }

    /// Parses a wire name back into a role; every other string is rejected.
    pub fn from_name(s: &str) -> (r: Option<Role>)
        ensures
            r matches Some(role) ==> s@ == role.spec_name(),
            r is None ==> forall|role: Role| s@ != #[trigger] role.spec_name(),
    {
        if str_eq(s, "admin") {
            Some(Role::Admin)
        } else if str_eq(s, "manager") {
            Some(Role::Manager)
        } else if str_eq(s, "driver") {
            Some(Role::Driver)
        } else if str_eq(s, "customer") {
            Some(Role::Customer)
        } else {
            proof {
                assert forall|role: Role| s@ != #[trigger] role.spec_name() by {
                    match role {
                        Role::Admin => assert(s@ != "admin"@),
                        Role::Manager => assert(s@ != "manager"@),
                        Role::Driver => assert(s@ != "driver"@),
                        Role::Customer => assert(s@ != "customer"@),
                    }
                }
            }
            None
        }
    }
}

} // verus!
