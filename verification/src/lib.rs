//! A holder for a fixed-size secret that the caller owns: it asks for the
//! secret's memory to be pinned while it lives, compares it without looking
//! at where the bytes differ, and asks for the memory to be released once.
pub mod bytes;
pub mod diagnostic;
pub mod tempkey;

pub use tempkey::TempKey;
