//! Encode/decode core of a tagged, protocol-buffer-style wire format.
//!
//! - `varint`: the base-128 integer form and the calls that write and read it;
//! - `wire`: the four payload shapes, owned and borrowed, and decoding errors;
//! - `scalars`: codecs for integers, booleans, fixed-width values and text;
//! - `nested`: composite values as length-delimited payloads, and field sizes;
//! - `laws`: round trips, size exactness and rejection of bad payloads.
pub mod varint;
pub mod wire;
pub mod scalars;
pub mod nested;
pub mod laws;
