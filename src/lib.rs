//! A reversible container format: a file's bytes are compressed, textually
//! encoded and optionally encrypted, then framed together with the file's
//! extension so that the original can be restored exactly.

pub mod codec;
pub mod convert;
pub mod frame;
pub mod keys;
pub mod lifecycle;
pub mod naming;
pub mod primitives;
