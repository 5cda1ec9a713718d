//! Embedding boundary for a NaN-boxing dynamic-language engine.
//!
//! The crate covers the pieces of an embedding layer that must be bit-exact:
//! the tagged 64-bit value representation (`value`), the layout of the call
//! buffer handed to native functions (`frame`), the registration table that
//! keeps exposed function names alive (`table`), the host-side bookkeeping of
//! GC roots and private-data associations (`roots`), and the normalization of
//! the engine's coarse status codes (`gateway`).

pub mod frame;
pub mod gateway;
pub mod roots;
pub mod table;
pub mod value;
