//! The login request object and its validation rules.

use vstd::prelude::*;
use vstd::string::StrSliceExecFns;

use crate::users::dto::ValidationError;

verus! {

/// A login request.
#[derive(Debug, Clone)]
pub struct LoginDto {
    pub email: String,
    pub password: String,
}

impl LoginDto {
    /// The validation rule: email and password each at least one character.
    pub open spec fn spec_valid(self) -> bool {
        self.email@.len() >= 1 && self.password@.len() >= 1
    }

    /// Validates the request, reporting the first rule broken.
    pub fn validate(&self) -> (r: Result<(), ValidationError>)
        ensures
            r is Ok <==> self.spec_valid(),
            r matches Err(e) ==> match e {
                ValidationError::Email => self.email@.len() == 0,
                ValidationError::UserName => false,
                ValidationError::Password => self.password@.len() == 0,
            },
    {
        if self.email.as_str().unicode_len() < 1 {
            return Err(ValidationError::Email);
        }
        if self.password.as_str().unicode_len() < 1 {
            return Err(ValidationError::Password);
        }
        Ok(())
    }
}

} // verus!
