//! Lowering helpers for GPU kernels: textual barrier operations and a
//! bounds-checked, offsettable view over a strided buffer for tiled matmul.
pub mod barrier;
pub mod config;
pub mod tensor;
pub mod tensor_view;
