//! Decoding of Intel 8085 machine code into typed instructions, and their
//! assembly text.
pub mod hex;
pub mod i8051;
pub mod i8085;
pub mod printer;

pub use printer::{AddressWidth, Print, Printer};
