//! The AMD64 instruction encoder and the COFF object model it writes into.

pub mod builder;
pub mod coff;
pub mod operations;
pub mod registers;
pub mod utilities;
pub mod validation;
