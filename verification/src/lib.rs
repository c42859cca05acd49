//! Verified core of a captive-portal login client.
//!
//! The library covers the logic that can be checked: computing resize
//! targets for the CAPTCHA image, decoding the recognition model's label
//! sequence into a string, parsing and printing the decimal numbers the
//! portal exchanges, interpreting the portal's JSON login responses, and
//! the bounded retry state machine that drives one login attempt.
//! Network transport, the float tensor pipeline and the inference runtime
//! live outside, in the surrounding application.

pub mod addresses;
pub mod decoder;
pub mod image;
pub mod json;
pub mod numstr;
pub mod portal;
pub mod protocol;
pub mod session;

pub use image::ModelChannels;
pub use image::ResizeParam;
pub use protocol::AuthParseError;
pub use protocol::AuthResult;
