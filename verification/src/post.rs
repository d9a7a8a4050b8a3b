//! Creating and listing posts.
pub mod create;
pub mod read;
