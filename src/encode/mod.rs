//! Encoding of the instruction model back into 32-bit and 16-bit words.
pub mod pack;
pub mod process32;
pub mod process16;
