//! Error taxonomy of a client for networked smart devices: every failure of
//! the transport, of decoding a response, or reported by the device for one
//! section of a response, becomes one [`Error`].
pub mod error;
pub mod text;

pub use error::{Error, Result, SectionError};
