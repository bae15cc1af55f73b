//! Request and response types of the HTTP API and the checks its handlers
//! apply.

pub mod dto;
pub mod error;
pub mod handlers;

pub use error::AppError;
