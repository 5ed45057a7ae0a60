//! What every part of the library shares.

pub mod response;

pub use response::{ApiError, ApiResponse};
