//! Backend-communication core for a desktop poker client.
//!
//! The library owns the credential lifecycle (acquisition, secure storage,
//! expiry evaluation, silent reuse), the request plans for every backend
//! call, and the decoding of the backend's uniform response envelope.
//! Network transport and the window shell live outside the library and only
//! exchange plain values with it.

pub mod errors;
pub mod credential;
pub mod store;
pub mod text;
pub mod models;
pub mod bodies;
pub mod plan;
pub mod json;
pub mod envelope;
pub mod ops;
pub mod keystore;
pub mod time;
