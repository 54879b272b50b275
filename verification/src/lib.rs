//! An in-memory store of named resources and the rules by which a small web
//! service answers requests to create, read and delete them.
//!
//! The executable functions carry contracts stated over plain mathematical
//! models: a resource is a pair of optional character sequences, the store is
//! a map from identifier to name, and a reply is a status together with what
//! the body will say.
pub mod error;
pub mod handlers;
pub mod ident;
pub mod lifecycle;
pub mod model;
