//! Credential management: user registration and login backed by a
//! uniqueness-enforcing credential store and a one-way password hasher.

pub mod errors;
pub mod hasher;
pub mod store;
pub mod user;
pub mod user_service;
