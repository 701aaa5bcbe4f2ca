//! A disciplined source-text emitter: a writer that turns structured
//! emission requests (a struct, a match arm, a field) into correctly
//! indented lines of generated code.
//!
//! The writer owns an output buffer and an indentation prefix. Nested
//! lexical scopes are expressed as callbacks that receive a child writer
//! whose prefix is one indent unit deeper (or comment-prefixed); the
//! parent's prefix is never mutated, so depth is restored by construction
//! when the callback returns.
use vstd::prelude::*;

pub mod model;
pub mod writer;
pub mod wire;
pub mod laws;

verus! {

pub use crate::writer::CodeWriter;
pub use crate::wire::WireType;

} // verus!
