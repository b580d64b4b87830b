//! Request-validation and error-response core of a user-account HTTP service:
//! a declarative per-field validation engine, a closed catalog of domain
//! errors with fixed messages, and a mapper from failures to a uniform HTTP
//! status plus JSON error envelope.

pub mod config;
pub mod dtos;
pub mod error;
pub mod model;
pub mod rules;
pub mod text;
