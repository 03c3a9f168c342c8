//! Laws that say what the operations of the library are for, stated over their inputs
//! and results.

pub mod type_hash;
pub mod max_size;
pub mod derive_walks;
pub mod derive_attrs;
pub mod names_layout;
pub mod wire;
pub mod derive_input;
pub mod reading;
