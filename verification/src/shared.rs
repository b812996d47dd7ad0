pub mod config;
pub mod database;
pub mod hash_worker;
pub mod health_check;
pub mod master_key_middleware;
pub mod role;
pub mod rto;
pub mod text;
