//! The analysis behind the derive macros: the syntax of field types and attributes as
//! plain values, the classification of type parameters, and the checks of a derive
//! input. A procedural macro converts its parsed input to these types, calls the
//! functions here, and generates code from their results.

pub mod syntax;
pub mod attrs;
pub mod classify;
pub mod input;
