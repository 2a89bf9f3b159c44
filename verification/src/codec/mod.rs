//! The outside codecs that the tools and the detector call. Each function
//! here is believed, not proved: its contract is a claim about the code
//! that it calls.

pub mod base64;
pub mod json;
pub mod percent;
pub mod utf8;
