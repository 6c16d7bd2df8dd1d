//! The stages a request passes before it reaches a handler.

pub mod auth_key_middleware;
pub mod cors;
pub mod rate_limit;

pub use auth_key_middleware::{ApiKey, ApiKeyMiddleware};
pub use cors::{CorsGrant, CorsPolicy};
pub use rate_limit::TokenBucket;
