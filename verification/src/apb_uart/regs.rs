//! APBUART register definitions.
pub mod fields;
