# epserde

A verified implementation of ε-serde, a binary serialization format whose data can
be read back either by a full copy or by an ε-copy that borrows what it can from
the serialized bytes.

The library is written in Verus: its public functions state their behaviour in
`requires`/`ensures` contracts over a mathematical model of the format (the bytes a
value is written to, the outcome of reading at a position) and are proved against it;
private helpers carry contracts where their callers need them.
The central law, `deser::deserialize::lemma_file_read_back`, states that whatever is
serialized, followed by any bytes, is read back in the model with exactly the bytes
written and holds the same data, both as a full copy and as an ε-copy. The reading
functions are tied to that model: a full copy succeeds whenever the model does, and an
ε-copy too, except that types whose reading aligns to more than one byte may meet an
alignment error when the memory holding the bytes is misaligned. The reading functions
require bytes that can be decoded (UTF-8 strings, valid characters); `deser::check_file`
tells whether they can.

The analysis behind the derive macros is part of the library (`src/derive/`): field
types and `#[epserde(...)]` attributes as plain values, the grammar of the attributes
(`zero_copy`, `deep_copy`, `bound(...)`, `full_copy(...)`, `phantom(...)`), the checks
of a derive input (no where clauses, no lifetimes, the `force_full_copy` field marker,
the parameter lists), and the classification of fields and type parameters into
ε-copy and full-copy, with the parameters that sequences force to deep copy. Each
function states its result exactly, and the laws of the derive's documentation (what
lies inside `PhantomData` never counts, phantom parameters are never replaced) are
proved. `app/derive.rs` converts a `syn` derive input to these values and back to
`syn` errors; generating the implementations with `quote!` is left to a
procedural-macro crate, which cannot live here. Until then, a type of your own takes
part in the format by implementing by hand the traits that the library implements
for its own types (`CopyType`, `TypeName`, `TypeHash`, `ReprHash`, `MaxSizeOf`, and
either `ZeroCopy` or `SerializeInner` and `DeserializeInner`), as `src/impls/` does.
Types that are zero-copy but are serialized as deep-copy are reported on standard
error by `store` in `app/` for the stored type itself only.

Layout:

- `src/lib.rs`: format constants and `pad_align_to`;
- `src/traits.rs`: type names, type and representation hashes, alignment, and the
  zero-copy/deep-copy selectors;
- `src/ser/`: writers, schema recording, serialization helpers and the
  `Serialize` trait;
- `src/deser/`: readers, the header check, deserialization helpers, the
  `Deserialize` trait, error messages and memory-mapping flags;
- `src/impls/`: implementations for primitive types, tuples, arrays, slices,
  vectors, boxed slices, options and strings;
- `src/text.rs`, `src/bytes.rs`, `src/utils.rs`: decimal and hexadecimal text,
  little-endian images, and the arithmetic of an aligned in-memory cursor;
- `src/derive/`: the analysis of derive inputs;
- `app/`: file and memory-mapping front ends, the aligned cursor, which need I/O or
  raw memory, and the `syn` front end of the derive analysis;
- `tests/`: scenario tests run against the compiled library.
