//! Implementations of serialization and deserialization for standard Rust types.

pub mod prim;
pub mod vec;
pub mod option;
pub mod string;
pub mod boxed_slice;
pub mod stdlib;
pub mod tuple;
pub mod array;
pub mod slice;
