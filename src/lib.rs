//! Typed binding for the "latest quotes" market-data endpoint: request
//! construction, status routing and response decoding, with contracts.
pub mod endpoint;
pub mod error;
pub mod json;
pub mod quote;
pub mod request;
