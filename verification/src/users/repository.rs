//! The user repository over the in-memory backend.  The document- and
//! key-value-store repositories are I/O and live with the program around the
//! library.

use vstd::prelude::*;

use crate::shared::database::{Database, InMemoryDatabase};
use crate::shared::text::str_eq;
use crate::users::model::User;

verus! {

/// The error a repository operation can surface.
#[derive(Debug)]
pub enum UserRepositoryError {
    Other(String),
}

/// The key a single user is looked up by.
#[derive(Clone, Copy)]
pub enum FindOneProperty<'a> {
    Uuid(&'a str),
    Email(&'a str),
}

impl<'a> FindOneProperty<'a> {
    /// Whether `user` is the one this key selects.
    pub open spec fn spec_matches(self, user: User) -> bool {
        match self {
            FindOneProperty::Uuid(uuid) => user.uuid@ == uuid@,
            FindOneProperty::Email(email) => user.email@ == email@,
        }
    }

    /// Checks this key against one user.
    pub fn matches(&self, user: &User) -> (r: bool)
        ensures
            r == self.spec_matches(*user),
    {
        match self {
            FindOneProperty::Uuid(uuid) => str_eq(user.uuid.as_str(), uuid),
            FindOneProperty::Email(email) => str_eq(user.email.as_str(), email),
        }
    }
}

/// The repository capability the handlers consume; implemented for the
/// in-memory backend.
pub trait UserRepository {
    fn find_one(&self, property: FindOneProperty) -> Result<User, UserRepositoryError>;

    fn find_all(&self) -> Result<Vec<User>, UserRepositoryError>;

    fn create(&mut self, user: User) -> Result<(), UserRepositoryError>;
}

/// A repository over one backend.
pub struct UserRepositoryImpl<DB: Database> {
    database: DB,
}

impl<DB: Database> UserRepositoryImpl<DB> {
    /// The stored users, in insertion order: what the backend holds.
    pub closed spec fn spec_users(&self) -> Seq<User> {
        self.database.spec_view()
    }

    /// A repository over the given backend, storing exactly what the backend
    /// already holds.
    pub fn new(database: DB) -> (r: Self)
        ensures
            r.spec_users() == database.spec_view(),
    {
        UserRepositoryImpl { database }
    }
}

impl UserRepositoryImpl<InMemoryDatabase> {

    /// Looks up the first stored user the key selects; errs exactly when no
    /// stored user matches.
    pub fn find_one(&self, property: FindOneProperty) -> (r: Result<User, UserRepositoryError>)
        ensures
            r matches Ok(user) ==> exists|i: int|
                0 <= i < self.spec_users().len()
                && user == self.spec_users()[i]
                && #[trigger] property.spec_matches(self.spec_users()[i])
                && forall|k: int| 0 <= k < i ==> !property.spec_matches(#[trigger] self.spec_users()[k]),
            r is Err <==> forall|i: int|
                0 <= i < self.spec_users().len()
                ==> !property.spec_matches(#[trigger] self.spec_users()[i]),
    {
        let n = self.database.users.len();
        let mut i: usize = 0;
        while i < n
            invariant
                i <= n,
                n == self.spec_users().len(),
                forall|k: int| 0 <= k < i ==> !property.spec_matches(#[trigger] self.spec_users()[k]),
            decreases n - i,
        {
            let user = &self.database.users[i];
            if property.matches(user) {
                return Ok(user.duplicate());
            }
            i = i + 1;
        }
        Err(UserRepositoryError::Other(String::new()))
    }

    /// Lists the stored users.
    pub fn find_all(&self) -> (r: Result<Vec<User>, UserRepositoryError>)
        ensures
            r is Ok,
            r->Ok_0@ == self.spec_users(),
    {
        let mut result: Vec<User> = Vec::new();
        let n = self.database.users.len();
        let mut i: usize = 0;
        while i < n
            invariant
                i <= n,
                n == self.spec_users().len(),
                result@.len() == i,
                forall|k: int| 0 <= k < i ==> result@[k] == self.spec_users()[k],
            decreases n - i,
        {
            result.push(self.database.users[i].duplicate());
            i = i + 1;
        }
        proof {
            assert(result@ =~= self.spec_users());
        }
        Ok(result)
    }

    /// Appends a user; the in-memory backend cannot fail.
    pub fn create(&mut self, user: User) -> (r: Result<(), UserRepositoryError>)
        ensures
            r is Ok,
            final(self).spec_users() == old(self).spec_users().push(user),
    {
        self.database.users.push(user);
        Ok(())
    }
}

impl UserRepository for UserRepositoryImpl<InMemoryDatabase> {
    fn find_one(&self, property: FindOneProperty) -> Result<User, UserRepositoryError> {
        UserRepositoryImpl::find_one(self, property)
    }

    fn find_all(&self) -> Result<Vec<User>, UserRepositoryError> {
        UserRepositoryImpl::find_all(self)
    }

    fn create(&mut self, user: User) -> Result<(), UserRepositoryError> {
        UserRepositoryImpl::create(self, user)
    }
}

} // verus!
