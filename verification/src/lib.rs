//! A small feed of posts: the store that keeps them in insertion order, and
//! the request handlers that read it, extend it, and simulate slow or failing
//! upstreams.

pub mod chance;
pub mod database;
pub mod handlers;
pub mod ident;
pub mod models;
pub mod response;
pub mod sync;
pub mod text;
