//! Implementation of traits for structs from the standard library.

use vstd::prelude::*;
use vstd::layout::*;
use std::collections::hash_map::DefaultHasher;
use crate::traits::{MaxSizeOf, ReprHash, TypeHash, TypeHasher, TypeName, spec_std_repr_hash_of, spec_str_hash_input,
    std_repr_hash};
use vstd::string::*;

verus! {

impl TypeName for DefaultHasher {
    open spec fn spec_type_name() -> Seq<char> {
        "std::hash::DefaultHasher"@
    }

    fn type_name_str() -> (r: String) {
        String::from_str("std::hash::DefaultHasher")
    }
}

impl TypeHash for DefaultHasher {
    open spec fn spec_type_hash_input() -> Seq<u8> {
        spec_str_hash_input("std::hash::DefaultHasher")
    }

    fn type_hash(hasher: &mut TypeHasher) {
        hasher.write_str("std::hash::DefaultHasher");
    }
}

impl ReprHash for DefaultHasher {
    open spec fn spec_repr_hash(offset_of: nat) -> (Seq<u8>, nat) {
        spec_std_repr_hash_of::<DefaultHasher>(offset_of)
    }

    fn repr_hash(hasher: &mut TypeHasher, offset_of: &mut usize) {
        std_repr_hash::<DefaultHasher>(hasher, offset_of)
    }
}

impl MaxSizeOf for DefaultHasher {
    open spec fn spec_max_size_of() -> usize {
        size_of::<DefaultHasher>() as usize
    }

    fn max_size_of() -> (r: usize) {
        layout_for_type_is_valid::<DefaultHasher>();
        core::mem::size_of::<DefaultHasher>()
    }
}

} // verus!
