//! The login response object.

use vstd::prelude::*;

verus! {

/// The pair of encoded tokens answered to a successful login.
#[derive(Debug, Clone, PartialEq, Eq)]
pub struct LoginRto {
    pub access_token: String,
    pub refresh_token: String,
}

} // verus!
