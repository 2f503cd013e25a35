//! A small back end that lowers a register-level byte code into relocatable
//! COFF object files for x86-64.

pub mod intermediate_representation;
pub mod machine_code;
