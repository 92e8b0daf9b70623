//! A small image-hosting service: the rules that decide how uploads are
//! admitted, named and stored, and how stored images are found again.
pub mod config;
pub mod errors;
pub mod host;
pub mod laws;
pub mod naming;
pub mod retrieval;
pub mod upload;
