//! Typed clients for the Authy phone-verification API and the Twilio SMS API.
//!
//! The library builds each HTTP request as plain data and decodes each
//! response envelope into a typed result or a typed error. Sending the
//! request is left to the caller.
pub mod decimal;
pub mod phone;
pub mod json;
pub mod error;
pub mod envelope;
pub mod request;
pub mod client;
pub mod sms;

pub use crate::client::{CheckResponse, Client, StatusResponse, VerifyResponse};
pub use crate::error::AuthyErr;
