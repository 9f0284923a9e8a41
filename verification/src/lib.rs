//! A minimal Native Client module shim: the entry points a host loader
//! drives, a single recognized capability name, and the static
//! instance-interface table served for it.
//!
//! The library is purely the decision and response logic. The raw ABI
//! surface (exported symbols, C strings, function-pointer tables) lives
//! outside it and hands in plain byte strings and integers.

pub mod shim;
pub mod table;
