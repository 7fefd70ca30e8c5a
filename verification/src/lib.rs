//! Variables, constants, shadowing and scalar types, each shown by one small
//! routine whose observations are stated and proved.
//!
//! The routines compute and return what they see; [`console`] turns that into
//! the lines of text that a program around this library writes out.

pub mod console;
pub mod constants;
pub mod decimal;
pub mod mutability;
pub mod scalar_types;
pub mod shadowing;
