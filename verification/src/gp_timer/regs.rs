//! General Purpose Timer (GPTIMER) register definitions.
//!
//! This is a decrementing timer.
pub mod fields;
