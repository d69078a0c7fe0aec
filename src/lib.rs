//! Logic of a small CRUD service over one "author" resource: payload
//! validation, the request handlers as step functions from request and store
//! outcome to reply, and an in-memory author table that the handlers can run
//! against.
pub mod model;
pub mod validation;
pub mod handlers;
pub mod table;
pub mod laws;
