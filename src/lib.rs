//! Authentication core of the agent content service: password hashing, signed
//! session tokens, request authorization, and the record types that the
//! handlers around it exchange.

pub mod claims;
pub mod config;
pub mod credentials;
pub mod errors;
pub mod images;
pub mod login;
pub mod middleware;
pub mod models;
pub mod primitives;
pub mod search;
pub mod token;
