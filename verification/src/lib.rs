//! The identity service's core: configuration, password handling, storage
//! keys, the user records and the rules by which service requests are answered.

pub mod text;

pub mod config;
pub mod password;
pub mod user_manager;
pub mod storage;
pub mod service;
pub mod image_update;
