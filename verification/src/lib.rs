//! Generator of Dart bindings for a native library that is described by a
//! language-neutral component interface.
//!
//! The crate covers the callback-interface and async bridge of the bindings:
//! the glue that lets native code call objects implemented in Dart, with
//! exactly-once delivery of completions. Every function carries a contract
//! that is checked by Verus.

pub mod error;
pub mod text;
pub mod ir;
pub mod oracle;
pub mod ffi;
pub mod resolve;
pub mod registry;
pub mod emit;
pub mod callback_interface;
pub mod custom;
pub mod protocol;
pub mod fixtures;
