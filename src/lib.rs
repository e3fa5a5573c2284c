//! Marshaling between host-owned values and the wire representations that a
//! foreign language classifier reads and writes.
//!
//! Every value handed out is encoded into a buffer that the host owns and
//! keeps alive across the foreign call; every value handed back is copied out
//! and validated into ordinary owned strings before the caller sees it.

pub mod catalog;
pub mod decode;
pub mod encode;
pub mod error;
pub mod request;

pub use catalog::{EntryPoint, ParamKind};
pub use decode::{decode_flag, decode_text, decode_text_list, Guess};
pub use encode::{encode_bytes, encode_text, OutboundBuffer};
pub use error::MarshalError;
pub use request::{HostArg, Request};
