//! The guest side of a host/guest execution: the input reader, the public
//! journal that commits accumulate into, and the fixed-size result that the
//! journal is summarised into when the guest finishes.

pub mod channel;
pub mod console;
pub mod digest;
pub mod env;
pub mod error;
pub mod journal;
pub mod layout;
pub mod reader;
pub mod words;
