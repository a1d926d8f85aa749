//! A runtime-typed numeric array: a growable, homogeneous buffer of primitive
//! numbers that erases its element type behind a runtime tag, together with a
//! lock-guarded shared handle for concurrent access.
//!
//! Floating-point payloads are carried as their IEEE-754 bit patterns
//! (`u32` / `u64`); the embedding layer converts them at the boundary.

pub mod array_ex;
pub mod command_queue_props_ex;
pub mod device_buffer_ex;
pub mod device_ex;
pub mod dims_ex;
pub mod kernel_ex;
pub mod mem_config_ex;
pub mod num_list;
pub mod num_list_ex;
pub mod num_type_ex;
pub mod number_ex;
pub mod number_type;
pub mod status_code_error_ex;
pub mod traits;
pub mod wrapper_ex;

pub use array_ex::Array;
pub use array_ex::ArrayEx;
pub use num_list::NumList;
pub use num_list_ex::NumListEx;
pub use num_type_ex::NumTypeEx;
pub use number_ex::NumEx;
pub use number_ex::NumExT;
pub use number_type::NumberType;
pub use number_type::NumberTypeError;
