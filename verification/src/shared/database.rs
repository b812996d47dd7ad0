//! Persistence backends.  The document- and key-value-store backends live
//! with the program around the library; here is the backend abstraction and
//! the in-memory store.

use vstd::prelude::*;
use vstd::string::StringExecFns;

use crate::shared::config::Config;
use crate::users::model::User;

verus! {

/// A snapshot of a backend's health.
#[derive(Debug, Clone)]
pub struct DatabaseStats {
    pub connected: bool,
    pub name: String,
}

/// A persistence backend for the service's users.
pub trait Database: Sized {
    /// The users the backend stores.
    spec fn spec_view(&self) -> Seq<User>;

    fn new(config: &Config) -> Option<Self>;

    fn stats(&self) -> DatabaseStats;
}

/// The in-memory backend: a plain vector of users.
#[derive(Debug)]
pub struct InMemoryDatabase {
    pub users: Vec<User>,
}

impl InMemoryDatabase {
    /// A fresh, empty in-memory backend; it cannot fail.
    pub fn new(_config: &Config) -> (r: Option<Self>)
        ensures
            r matches Some(db) && db.users@ =~= Seq::<User>::empty(),
    {
        Some(InMemoryDatabase { users: Vec::new() })
    }

    /// The in-memory backend is always healthy.
    pub fn stats(&self) -> (r: DatabaseStats)
        ensures
            r.connected,
            r.name@ == "In-Memory"@,
    {
        DatabaseStats { connected: true, name: String::from_str("In-Memory") }
    }
}

impl Database for InMemoryDatabase {
    open spec fn spec_view(&self) -> Seq<User> {
        self.users@
    }

    fn new(config: &Config) -> Option<Self> {
        InMemoryDatabase::new(config)
    }

    fn stats(&self) -> DatabaseStats {
        InMemoryDatabase::stats(self)
    }
}

} // verus!
