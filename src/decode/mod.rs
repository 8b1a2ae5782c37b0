//! Decoding of raw instruction words into the instruction model.
pub mod fields;
pub mod process32;
pub mod process16;
