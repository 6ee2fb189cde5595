//! Convenience functions for serialising values to and from the MessagePack
//! wire format, delegating the byte-level encoding to the `rmp_serialize`
//! crate and wrapping its two error types into one unified error enum.

pub mod serialisation;
