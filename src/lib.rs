//! A generic master-detail data gateway: request paths are parsed into
//! operations, operations are resolved against a registry of windows, and
//! the outcome is mapped to a transport reply.

pub mod path;
pub mod error;
pub mod params;
pub mod window;
pub mod route;
pub mod handler;
pub mod codec;
pub mod assets;
pub mod opt;
pub mod laws;
