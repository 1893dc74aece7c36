//! The runtime protocol of the boundary, stated as a model in Rust: handle
//! tables, the guard of the vtable registration, the settlement of async
//! calls, and the codec contract.
//!
//! Native code may call at any time and in any order. Each operation here is
//! one atomic step, and the laws hold of this model for every sequence of
//! steps. The emitted Dart code is text: nothing here executes it. What
//! ties the two is the order of the emitted lines, which the emitters state
//! and prove: the guard tests and sets its flag in adjacent lines before the
//! native call, and an async trampoline writes the outcome first and then
//! tests, marks and fires in adjacent lines, as `ensure_initialized` and
//! `CallState::complete` do in one step.

pub mod handle_map;
pub mod vtable_guard;
pub mod foreign_future;
pub mod codec;
