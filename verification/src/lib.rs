//! A small authentication service library.
//!
//! The core of the crate is the hashing worker pool in
//! [`shared::hash_worker`]: a bounded dispatch queue feeding a fixed set of
//! worker threads that run the deliberately expensive password hashing and
//! verification, so that request handlers never block on them directly.
//! Around it sit the plain data types of the service: users, roles,
//! request/response objects with their validation rules, an in-memory user
//! repository, and the health-check bookkeeping.

pub mod auth;
pub mod shared;
pub mod users;
