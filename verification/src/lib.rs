//! A small multi-user directory service core: registration, login with
//! token rotation, profile lookup and name-prefix search over a modelled
//! record store, together with the pooled-connection discipline that a
//! relational backend imposes.

pub mod attempt;
pub mod bootstrap;
pub mod dates;
pub mod errors;
pub mod service;
pub mod password;
pub mod pool;
pub mod store;
pub mod user;

pub use errors::Error;
pub use errors::ServiceError;
