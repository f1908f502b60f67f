//! APB AMBA Plug&Play configuration record register definitions.
pub mod fields;
