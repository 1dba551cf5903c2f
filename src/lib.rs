//! Typed client binding for the Plaid liabilities endpoint: JSON document
//! model, response decoding, request construction and outcome classification.

pub mod json;
pub mod schema;
pub mod liabilities;
pub mod error;
pub mod client;
