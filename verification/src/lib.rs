//! Command encoding for the Metal kernels of a Qwen runtime.

pub mod dtype;
pub mod error;
pub mod shape;
pub mod numeric;
pub mod float_bits;
pub mod mxfp4;
pub mod context;
pub mod encoder;
pub mod tensor;
pub mod gguf_backing;
pub mod pages;
pub mod source_ranges;
pub mod retained;
pub mod moe_slots;
pub mod moe_grouped;
pub mod moe_checked;
pub mod moe_route;
pub mod moe_generic;
pub mod norm;
pub mod rope;
pub mod research;
pub mod reading;
pub mod number_laws;
pub mod storage_laws;
pub mod backing_laws;
pub mod retained_laws;
pub mod slot_laws;
pub mod grouped_laws;
pub mod range_laws;
pub mod checked_laws;
pub mod generic_laws;
pub mod route_laws;
pub mod norm_laws;
pub mod rope_laws;
