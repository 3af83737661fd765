pub mod cache;
pub mod config;
pub mod error;
pub mod guard;
pub mod http;
pub mod keys;
pub mod ops;
