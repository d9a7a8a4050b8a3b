//! A small blog service: users write posts with tags, and clients list the
//! posts page by page, optionally searching their titles and bodies.
pub mod models;
pub mod response_models;
pub mod post;
pub mod handlers;
pub mod routes;
