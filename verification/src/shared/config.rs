//! Service configuration, consumed once at startup.

use vstd::prelude::*;

verus! {

/// The configuration the service is started with.  Reading it from the
/// environment is the surrounding program's job; the library only consumes
/// the plain values.
#[derive(Clone, Debug)]
pub struct Config {
    pub address: String,
    pub master_key: String,
    pub jwt_secret: String,
}

} // verus!
