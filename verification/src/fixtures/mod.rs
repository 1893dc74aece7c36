//! Sample native libraries that exercise the generated bindings: one with a
//! custom type, one with async functions, objects and callback interfaces.
//!
//! The functions here compute what the samples answer. Waiting, scheduling
//! and the export to Dart are the business of the program around them.

pub mod custom_types;
pub mod dart_async;
