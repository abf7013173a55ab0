//! Decoding of client subscription requests in a publish/subscribe event
//! protocol: a raw text frame is parsed into a generic value tree, validated
//! as `["REQ", "<subscription-id>", <filter-object>, ...]`, and turned into a
//! [`Subscription`] holding the identifier and its ordered filters, or into a
//! typed [`DecodeError`].  Validation is all-or-nothing: the first violation
//! rejects the whole frame.

pub mod envelope;
pub mod errors;
pub mod filter;
pub mod json;
pub mod laws;
pub mod value;

pub use envelope::{ReqCmd, Subscription};
pub use errors::DecodeError;
pub use filter::ReqFilter;
pub use value::JsonValue;
