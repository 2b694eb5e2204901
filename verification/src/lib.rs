//! Value-representation layer for an embedded foreign managed runtime.
//!
//! The routines here interpret tagged heap addresses as typed objects
//! according to the runtime's object layout: a header word immediately
//! before each object encodes its type descriptor (high bits) and its
//! garbage-collector state (low nibble).  The layer decodes headers,
//! answers type-predicate questions, reads the payload layout of strings,
//! symbols, simple vectors, arrays and struct instances, converts between
//! host scalars and boxed cells, and cooperates with the collector's
//! write-barrier protocol.  The heap itself is held explicitly as a
//! byte-addressable image owned by a [`runtime::Runtime`] value, so every
//! address computation and bit manipulation is verified against it.

pub mod mem;
pub mod header;
pub mod runtime;
pub mod barrier;
pub mod scalar;
pub mod layout;
pub mod construct;
pub mod predicate;
