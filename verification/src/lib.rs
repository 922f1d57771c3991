//! Shape inference, configuration and code planning for the ONNX
//! `GlobalLpPool` operator, with the small intermediate representation it
//! works on.

pub mod text;
pub mod quant;
pub mod ir;
pub mod processor;
pub mod global_lp_pool;
pub mod codegen;
pub mod laws;
