//! An in-memory store of blog posts with max-plus-one id assignment.

pub mod health;
pub mod laws;
pub mod model;
pub mod post;
pub mod proofs;
pub mod store;
