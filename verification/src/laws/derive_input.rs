//! Laws on the checks of a derive input: what an accepted input satisfies.

use vstd::prelude::*;
use crate::derive::attrs::{spec_parse_attrs, spec_texts};
use crate::derive::input::{DataShape, DeriveShape, FieldShape, GenericParam, VariantShape, spec_check_derive, spec_conflict, spec_data_error, spec_field_error, spec_field_key_error, spec_fields_error, spec_has_lifetime, spec_is_phantom_deser_data, spec_param_names, spec_resolve_error, spec_variants_error, spec_where_msg};

verus! {

/// Whether the `#[epserde(...)]` keys of a field are accepted: only the marker
/// `force_full_copy`, with no list, outside a zero-copy type and not on a
/// `PhantomDeserData` field.
pub open spec fn spec_field_ok(f: FieldShape, zero_copy: bool) -> bool {
    forall|j: int|
        0 <= j < f.keys@.len() ==> {
            &&& (#[trigger] f.keys@[j]).name@ == "force_full_copy"@
            &&& !f.keys@[j].has_list
            &&& !zero_copy
            &&& !spec_is_phantom_deser_data(f.ty)
        }
}

proof fn lemma_no_lifetime(g: Seq<GenericParam>, n: nat)
    requires
        n <= g.len(),
        !spec_has_lifetime(g, n),
    ensures
        forall|i: int| 0 <= i < n ==> !(#[trigger] g[i] is Lifetime),
    decreases n,
{
    if n > 0 {
        lemma_no_lifetime(g, (n - 1) as nat);
    }
}

proof fn lemma_field_ok(f: FieldShape, n: nat, zero_copy: bool)
    requires
        n <= f.keys@.len(),
        spec_field_error(f, n, zero_copy) is None,
    ensures
        forall|j: int|
            0 <= j < n ==> {
                &&& (#[trigger] f.keys@[j]).name@ == "force_full_copy"@
                &&& !f.keys@[j].has_list
                &&& !zero_copy
                &&& !spec_is_phantom_deser_data(f.ty)
            },
    decreases n,
{
    if n > 0 {
        lemma_field_ok(f, (n - 1) as nat, zero_copy);
        assert(spec_field_key_error(f.keys@[n - 1], zero_copy, spec_is_phantom_deser_data(f.ty)) is None);
    }
}

proof fn lemma_fields_ok(fields: Seq<FieldShape>, n: nat, zero_copy: bool)
    requires
        n <= fields.len(),
        spec_fields_error(fields, n, zero_copy) is None,
    ensures
        forall|i: int| 0 <= i < n ==> spec_field_ok(#[trigger] fields[i], zero_copy),
    decreases n,
{
    if n > 0 {
        lemma_fields_ok(fields, (n - 1) as nat, zero_copy);
        lemma_field_ok(fields[n - 1], fields[n - 1].keys@.len(), zero_copy);
    }
}

proof fn lemma_variants_ok(vs: Seq<VariantShape>, n: nat, zero_copy: bool)
    requires
        n <= vs.len(),
        spec_variants_error(vs, n, zero_copy) is None,
    ensures
        forall|i: int| 0 <= i < n ==> !(#[trigger] vs[i]).has_epserde_attr && (forall|k: int|
            0 <= k < vs[i].fields@.len() ==> spec_field_ok(#[trigger] vs[i].fields@[k], zero_copy)),
    decreases n,
{
    if n > 0 {
        lemma_variants_ok(vs, (n - 1) as nat, zero_copy);
        lemma_fields_ok(vs[n - 1].fields@, vs[n - 1].fields@.len(), zero_copy);
    }
}

proof fn lemma_resolved(
    listed: Seq<Seq<char>>,
    n: nat,
    attr: Seq<char>,
    zero_copy: bool,
    zero_copy_msg: Seq<char>,
    type_params: Seq<Seq<char>>,
    const_params: Seq<Seq<char>>,
    type_ident: Seq<char>,
)
    requires
        n <= listed.len(),
        spec_resolve_error(listed, n, attr, zero_copy, zero_copy_msg, type_params, const_params, type_ident) is None,
    ensures
        forall|i: int| 0 <= i < n ==> type_params.contains(#[trigger] listed[i]),
        n > 0 ==> !zero_copy,
    decreases n,
{
    if n > 0 {
        lemma_resolved(listed, (n - 1) as nat, attr, zero_copy, zero_copy_msg, type_params, const_params, type_ident);
    }
}

proof fn lemma_no_conflict(phantom: Seq<Seq<char>>, n: nat, full: Seq<Seq<char>>)
    requires
        n <= phantom.len(),
        spec_conflict(phantom, n, full) is None,
    ensures
        forall|i: int| 0 <= i < n ==> !full.contains(#[trigger] phantom[i]),
    decreases n,
{
    if n > 0 {
        lemma_no_conflict(phantom, (n - 1) as nat, full);
    }
}

/// Law: an accepted derive input has no where clause, no lifetime parameter, and is not
/// a union; its fields carry at most the `force_full_copy` marker, with no list, outside
/// a zero-copy type and not on a `PhantomDeserData` field, and its enum variants no
/// attribute; every parameter listed in `full_copy(...)` or `phantom(...)` is a type
/// parameter of the type, none is listed in both, and a zero-copy type lists none.
pub proof fn lemma_accepted_input(input: DeriveShape)
    requires
        spec_check_derive(input) is Ok,
    ensures
        ({
            let g = input.generics@;
            let types = spec_param_names(g, g.len(), true);
            let a = spec_check_derive(input)->Ok_0;
            &&& !input.has_where_clause
            &&& forall|i: int| 0 <= i < g.len() ==> !(#[trigger] g[i] is Lifetime)
            &&& !(input.data is Union)
            &&& input.data matches DataShape::Struct(fields) ==> forall|i: int|
                0 <= i < fields@.len() ==> spec_field_ok(#[trigger] fields@[i], a.is_zero_copy)
            &&& input.data matches DataShape::Enum(vs) ==> forall|i: int|
                0 <= i < vs@.len() ==> !(#[trigger] vs@[i]).has_epserde_attr && (forall|k: int|
                    0 <= k < vs@[i].fields@.len() ==> spec_field_ok(#[trigger] vs@[i].fields@[k], a.is_zero_copy))
            &&& forall|i: int| 0 <= i < a.full_copy_params.len() ==> types.contains(#[trigger] a.full_copy_params[i])
            &&& forall|i: int| 0 <= i < a.phantom_params.len() ==> types.contains(#[trigger] a.phantom_params[i])
            &&& forall|i: int| 0 <= i < a.phantom_params.len() ==> !a.full_copy_params.contains(#[trigger] a.phantom_params[i])
            &&& a.is_zero_copy ==> a.full_copy_params.len() == 0 && a.phantom_params.len() == 0
        }),
{
    let g = input.generics@;
    let types = spec_param_names(g, g.len(), true);
    let consts = spec_param_names(g, g.len(), false);
    let a = spec_parse_attrs(input.ident@, spec_texts(input.repr_hints@), input.keys@)->Ok_0;
    lemma_no_lifetime(g, g.len());
    match input.data {
        DataShape::Struct(fields) => lemma_fields_ok(fields@, fields@.len(), a.is_zero_copy),
        DataShape::Enum(vs) => lemma_variants_ok(vs@, vs@.len(), a.is_zero_copy),
        DataShape::Union => {},
    }
    lemma_resolved(a.full_copy_params, a.full_copy_params.len(), "full_copy"@, a.is_zero_copy,
        crate::derive::input::spec_full_copy_zero_msg(), types, consts, input.ident@);
    lemma_resolved(a.phantom_params, a.phantom_params.len(), "phantom"@, a.is_zero_copy,
        crate::derive::input::spec_phantom_zero_msg(), types, consts, input.ident@);
    lemma_no_conflict(a.phantom_params, a.phantom_params.len(), a.full_copy_params);
}

/// Law: a derive input with a where clause is refused, whatever else it holds.
pub proof fn lemma_where_clause_refused(input: DeriveShape)
    requires
        input.has_where_clause,
    ensures
        spec_check_derive(input) == Err::<crate::derive::attrs::AttrsView, Seq<char>>(spec_where_msg()),
{
}

} // verus!
