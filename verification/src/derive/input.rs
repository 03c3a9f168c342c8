//! The checks made on a derive input before any code is generated.

use vstd::prelude::*;
use vstd::string::*;
use crate::derive::attrs::{AttrsView, EpserdeAttrs, EpserdeKey, append_texts, parse_epserde_attrs, push_text, spec_attrs_view, spec_parse_attrs, spec_texts};
use crate::derive::syntax::{PathSegment, TypeSyntax, is_named};

verus! {

/// A generic parameter of the type.
pub enum GenericParam {
    /// A type parameter, with its name.
    Type(String),
    /// A const parameter, with its name.
    Const(String),
    /// A lifetime parameter, with its name.
    Lifetime(String),
}

/// A key of an `#[epserde(...)]` attribute of a field: its name, and whether a
/// parenthesized list follows it.
pub struct FieldKey {
    pub name: String,
    pub has_list: bool,
}

/// A field: its type and the keys of its `#[epserde(...)]` attributes.
pub struct FieldShape {
    pub ty: TypeSyntax,
    pub keys: Vec<FieldKey>,
}

/// A variant of an enum: whether it carries an `#[epserde(...)]` attribute, and its
/// fields.
pub struct VariantShape {
    pub has_epserde_attr: bool,
    pub fields: Vec<FieldShape>,
}

/// The data of the type.
pub enum DataShape {
    Struct(Vec<FieldShape>),
    Enum(Vec<VariantShape>),
    Union,
}

/// What the derive macros read of the type they are applied to.
pub struct DeriveShape {
    /// The name of the type.
    pub ident: String,
    /// Whether the type has a where clause.
    pub has_where_clause: bool,
    /// Its generic parameters, in order.
    pub generics: Vec<GenericParam>,
    /// The hints of its `#[repr(...)]` attributes.
    pub repr_hints: Vec<String>,
    /// The keys of its `#[epserde(...)]` attributes, in source order.
    pub keys: Vec<EpserdeKey>,
    /// Its data.
    pub data: DataShape,
}

/// What the checks establish of a type, for the generation of its implementations.
pub struct DeriveContext {
    /// What its attributes declare.
    pub attrs: EpserdeAttrs,
    /// The names of its type and const parameters, in order.
    pub type_const_params: Vec<String>,
    /// The names of its const parameters, in order.
    pub const_params: Vec<String>,
    /// The type parameters that can be replaced: all but those declared phantom.
    pub repl_params: Vec<String>,
    /// The type parameters pinned to full copy.
    pub forced_params: Vec<String>,
}

/// The names of the type parameters (`types`) or of the const parameters among the
/// first `n` generic parameters, in order.
pub open spec fn spec_param_names(g: Seq<GenericParam>, n: nat, types: bool) -> Seq<Seq<char>>
    decreases n,
{
    if n == 0 || n > g.len() {
        Seq::empty()
    } else {
        let rest = spec_param_names(g, (n - 1) as nat, types);
        match g[n - 1] {
            GenericParam::Type(x) => if types { rest.push(x@) } else { rest },
            GenericParam::Const(x) => if types { rest } else { rest.push(x@) },
            GenericParam::Lifetime(_) => rest,
        }
    }
}

/// The names of the type and const parameters among the first `n`, in order.
pub open spec fn spec_type_const_names(g: Seq<GenericParam>, n: nat) -> Seq<Seq<char>>
    decreases n,
{
    if n == 0 || n > g.len() {
        Seq::empty()
    } else {
        let rest = spec_type_const_names(g, (n - 1) as nat);
        match g[n - 1] {
            GenericParam::Type(x) => rest.push(x@),
            GenericParam::Const(x) => rest.push(x@),
            GenericParam::Lifetime(_) => rest,
        }
    }
}

/// Whether some of the first `n` generic parameters is a lifetime.
pub open spec fn spec_has_lifetime(g: Seq<GenericParam>, n: nat) -> bool
    decreases n,
{
    if n == 0 || n > g.len() {
        false
    } else {
        spec_has_lifetime(g, (n - 1) as nat) || g[n - 1] is Lifetime
    }
}

/// Whether a field's type is a `PhantomDeserData<...>` (its last segment, with no
/// qualified self).
pub open spec fn spec_is_phantom_deser_data(ty: TypeSyntax) -> bool {
    match ty {
        TypeSyntax::Path { qself, segments, .. } => !qself && segments@.len() > 0 && segments@.last().ident@
            == "PhantomDeserData"@,
        _ => false,
    }
}

/// The error of a field key, if any: the only key is `force_full_copy`, which takes no
/// list and is refused inside a zero-copy type and on a `PhantomDeserData` field.
pub open spec fn spec_field_key_error(key: FieldKey, zero_copy: bool, phantom_deser: bool) -> Option<Seq<char>> {
    if key.name@ == "force_full_copy"@ {
        if key.has_list {
            Some("\"force_full_copy\" is a field-level marker and takes no arguments; use #[epserde(force_full_copy)]"@)
        } else if zero_copy {
            Some("\"force_full_copy\" cannot appear inside a zero-copy type"@)
        } else if phantom_deser {
            Some(
                "\"force_full_copy\" has no operational effect on a PhantomDeserData<T> field; remove the marker, or migrate to PhantomData<T>"@,
            )
        } else {
            None
        }
    } else {
        Some("expected \"force_full_copy\""@)
    }
}

/// The error of the first wrong key among the first `n` keys of a field.
pub open spec fn spec_field_error(f: FieldShape, n: nat, zero_copy: bool) -> Option<Seq<char>>
    decreases n,
{
    if n == 0 || n > f.keys@.len() {
        None
    } else {
        match spec_field_error(f, (n - 1) as nat, zero_copy) {
            Some(e) => Some(e),
            None => spec_field_key_error(f.keys@[n - 1], zero_copy, spec_is_phantom_deser_data(f.ty)),
        }
    }
}

/// The error of the first wrong field among the first `n` fields.
pub open spec fn spec_fields_error(fields: Seq<FieldShape>, n: nat, zero_copy: bool) -> Option<Seq<char>>
    decreases n,
{
    if n == 0 || n > fields.len() {
        None
    } else {
        match spec_fields_error(fields, (n - 1) as nat, zero_copy) {
            Some(e) => Some(e),
            None => spec_field_error(fields[n - 1], fields[n - 1].keys@.len(), zero_copy),
        }
    }
}

/// The error for an attribute on an enum variant.
pub open spec fn spec_variant_attr_msg() -> Seq<char> {
    "#[epserde(...)] attributes are not supported on enum variants; place field-level markers such as force_full_copy on the fields of the variant"@
}

/// The error of the first wrong variant among the first `n`: its attribute, or its
/// first wrong field.
pub open spec fn spec_variants_error(vs: Seq<VariantShape>, n: nat, zero_copy: bool) -> Option<Seq<char>>
    decreases n,
{
    if n == 0 || n > vs.len() {
        None
    } else {
        match spec_variants_error(vs, (n - 1) as nat, zero_copy) {
            Some(e) => Some(e),
            None => if vs[n - 1].has_epserde_attr {
                Some(spec_variant_attr_msg())
            } else {
                spec_fields_error(vs[n - 1].fields@, vs[n - 1].fields@.len(), zero_copy)
            },
        }
    }
}

/// The error of the fields of the data, if any.
pub open spec fn spec_data_error(d: DataShape, zero_copy: bool) -> Option<Seq<char>> {
    match d {
        DataShape::Struct(fields) => spec_fields_error(fields@, fields@.len(), zero_copy),
        DataShape::Enum(vs) => spec_variants_error(vs@, vs@.len(), zero_copy),
        DataShape::Union => None,
    }
}

/// The error for an identifier listed in `attr(...)` that is a const parameter.
pub open spec fn spec_const_listed_msg(attr: Seq<char>, id: Seq<char>) -> Seq<char> {
    attr + " expects a type parameter, but `"@ + id + "` is a const parameter"@
}

/// The error for an identifier listed that is no parameter of the type.
pub open spec fn spec_not_param_msg(id: Seq<char>, type_ident: Seq<char>) -> Seq<char> {
    "`"@ + id + "` is not a type parameter of `"@ + type_ident + "`"@
}

/// The error of the first of the first `n` identifiers listed in `attr(...)` that is
/// refused: any, on a zero-copy type; a const parameter; a name that is no type
/// parameter.
pub open spec fn spec_resolve_error(
    listed: Seq<Seq<char>>,
    n: nat,
    attr: Seq<char>,
    zero_copy: bool,
    zero_copy_msg: Seq<char>,
    type_params: Seq<Seq<char>>,
    const_params: Seq<Seq<char>>,
    type_ident: Seq<char>,
) -> Option<Seq<char>>
    decreases n,
{
    if n == 0 || n > listed.len() {
        None
    } else {
        match spec_resolve_error(listed, (n - 1) as nat, attr, zero_copy, zero_copy_msg, type_params, const_params, type_ident) {
            Some(e) => Some(e),
            None => {
                let id = listed[n - 1];
                if zero_copy {
                    Some(zero_copy_msg)
                } else if type_params.contains(id) {
                    None
                } else if const_params.contains(id) {
                    Some(spec_const_listed_msg(attr, id))
                } else {
                    Some(spec_not_param_msg(id, type_ident))
                }
            },
        }
    }
}

/// The first of the first `n` phantom parameters also listed in `full_copy(...)`.
pub open spec fn spec_conflict(phantom: Seq<Seq<char>>, n: nat, full: Seq<Seq<char>>) -> Option<Seq<char>>
    decreases n,
{
    if n == 0 || n > phantom.len() {
        None
    } else {
        match spec_conflict(phantom, (n - 1) as nat, full) {
            Some(x) => Some(x),
            None => if full.contains(phantom[n - 1]) {
                Some(phantom[n - 1])
            } else {
                None
            },
        }
    }
}

/// The error for a parameter listed both as phantom and as full-copy.
pub open spec fn spec_conflict_msg(id: Seq<char>) -> Seq<char> {
    "`"@ + id + "` cannot be listed both in phantom(...) and full_copy(...)"@
}

/// The error for a where clause.
pub open spec fn spec_where_msg() -> Seq<char> {
    "The derive macros do not support where clauses on the original type"@
}

/// The error for a full-copy list on a zero-copy type.
pub open spec fn spec_full_copy_zero_msg() -> Seq<char> {
    "full_copy(...) cannot be used on a zero-copy type, as its deserialization type is a reference"@
}

/// The error for a phantom list on a zero-copy type.
pub open spec fn spec_phantom_zero_msg() -> Seq<char> {
    "phantom(...) cannot be used on a zero-copy type, as it performs no substitution"@
}

/// The outcome of the checks: what the attributes declare, or the first error, met in
/// this order: a where clause; the type's attributes; a lifetime parameter; the field
/// attributes; the `full_copy(...)` list; the `phantom(...)` list; a parameter in both;
/// a union.
pub open spec fn spec_check_derive(input: DeriveShape) -> Result<AttrsView, Seq<char>> {
    let g = input.generics@;
    let types = spec_param_names(g, g.len(), true);
    let consts = spec_param_names(g, g.len(), false);
    if input.has_where_clause {
        Err(spec_where_msg())
    } else {
        match spec_parse_attrs(input.ident@, spec_texts(input.repr_hints@), input.keys@) {
            Err(e) => Err(e),
            Ok(a) => if spec_has_lifetime(g, g.len()) {
                Err("Lifetime generics are not supported"@)
            } else {
                match spec_data_error(input.data, a.is_zero_copy) {
                    Some(e) => Err(e),
                    None => match spec_resolve_error(a.full_copy_params, a.full_copy_params.len(), "full_copy"@,
                        a.is_zero_copy, spec_full_copy_zero_msg(), types, consts, input.ident@) {
                        Some(e) => Err(e),
                        None => match spec_resolve_error(a.phantom_params, a.phantom_params.len(), "phantom"@,
                            a.is_zero_copy, spec_phantom_zero_msg(), types, consts, input.ident@) {
                            Some(e) => Err(e),
                            None => match spec_conflict(a.phantom_params, a.phantom_params.len(), a.full_copy_params) {
                                Some(id) => Err(spec_conflict_msg(id)),
                                None => if input.data is Union {
                                    Err("Union types are not supported"@)
                                } else {
                                    Ok(a)
                                },
                            },
                        },
                    },
                }
            },
        }
    }
}

/// The first `n` names of `s`, but those in `drop`, in order.
pub open spec fn spec_without(s: Seq<Seq<char>>, n: nat, drop: Seq<Seq<char>>) -> Seq<Seq<char>>
    decreases n,
{
    if n == 0 || n > s.len() {
        Seq::empty()
    } else {
        let rest = spec_without(s, (n - 1) as nat, drop);
        if drop.contains(s[n - 1]) {
            rest
        } else {
            rest.push(s[n - 1])
        }
    }
}

/// Whether `x` is among the strings of `v`.
fn contains_text(v: &Vec<String>, x: &String) -> (r: bool)
    ensures
        r == spec_texts(v@).contains(x@),
{
    let mut i: usize = 0;
    while i < v.len()
        invariant
            i <= v@.len(),
            forall|j: int| 0 <= j < i ==> v@[j]@ != x@,
        decreases v@.len() - i,
    {
        if v[i] == *x {
            assert(spec_texts(v@)[i as int] == x@);
            return true;
        }
        i = i + 1;
    }
    assert(!spec_texts(v@).contains(x@));
    false
}

/// The names of the type parameters (`types`) or of the const parameters, in order.
fn param_names(g: &Vec<GenericParam>, types: bool) -> (r: Vec<String>)
    ensures
        spec_texts(r@) == spec_param_names(g@, g@.len(), types),
{
    let mut out: Vec<String> = Vec::new();
    let mut i: usize = 0;
    assert(spec_texts(out@) =~= Seq::<Seq<char>>::empty());
    while i < g.len()
        invariant
            i <= g@.len(),
            spec_texts(out@) == spec_param_names(g@, i as nat, types),
        decreases g@.len() - i,
    {
        match &g[i] {
            GenericParam::Type(x) => if types {
                push_text(&mut out, x);
            },
            GenericParam::Const(x) => if !types {
                push_text(&mut out, x);
            },
            GenericParam::Lifetime(_) => {},
        }
        i = i + 1;
    }
    out
}

/// The names of the type and const parameters, in order, and whether some parameter is
/// a lifetime.
fn type_const_names(g: &Vec<GenericParam>) -> (r: (Vec<String>, bool))
    ensures
        spec_texts(r.0@) == spec_type_const_names(g@, g@.len()),
        r.1 == spec_has_lifetime(g@, g@.len()),
{
    let mut out: Vec<String> = Vec::new();
    let mut lifetime = false;
    let mut i: usize = 0;
    assert(spec_texts(out@) =~= Seq::<Seq<char>>::empty());
    while i < g.len()
        invariant
            i <= g@.len(),
            spec_texts(out@) == spec_type_const_names(g@, i as nat),
            lifetime == spec_has_lifetime(g@, i as nat),
        decreases g@.len() - i,
    {
        match &g[i] {
            GenericParam::Type(x) => push_text(&mut out, x),
            GenericParam::Const(x) => push_text(&mut out, x),
            GenericParam::Lifetime(_) => {
                lifetime = true;
            },
        }
        i = i + 1;
    }
    (out, lifetime)
}

/// Whether a field's type is a `PhantomDeserData<...>`.
fn is_phantom_deser_data(ty: &TypeSyntax) -> (r: bool)
    ensures
        r == spec_is_phantom_deser_data(*ty),
{
    match ty {
        TypeSyntax::Path { qself, leading_colon: _, segments } => {
            if *qself || segments.len() == 0 {
                false
            } else {
                proof { reveal_strlit("PhantomDeserData"); }
                is_named(&segments[segments.len() - 1].ident, "PhantomDeserData")
            }
        },
        _ => false,
    }
}

/// The error of the first wrong key of a field.
fn field_error(f: &FieldShape, zero_copy: bool) -> (r: Option<String>)
    ensures
        match (r, spec_field_error(*f, f.keys@.len(), zero_copy)) {
            (None, None) => true,
            (Some(e), Some(x)) => e@ == x,
            _ => false,
        },
{
    let phantom_deser = is_phantom_deser_data(&f.ty);
    let mut i: usize = 0;
    while i < f.keys.len()
        invariant
            i <= f.keys@.len(),
            phantom_deser == spec_is_phantom_deser_data(f.ty),
            spec_field_error(*f, i as nat, zero_copy) is None,
        decreases f.keys@.len() - i,
    {
        let key = &f.keys[i];
        proof { reveal_strlit("force_full_copy"); }
        let msg = if is_named(&key.name, "force_full_copy") {
            if key.has_list {
                Some(String::from_str("\"force_full_copy\" is a field-level marker and takes no arguments; use #[epserde(force_full_copy)]"))
            } else if zero_copy {
                Some(String::from_str("\"force_full_copy\" cannot appear inside a zero-copy type"))
            } else if phantom_deser {
                Some(String::from_str("\"force_full_copy\" has no operational effect on a PhantomDeserData<T> field; remove the marker, or migrate to PhantomData<T>"))
            } else {
                None
            }
        } else {
            Some(String::from_str("expected \"force_full_copy\""))
        };
        if let Some(e) = msg {
            proof { lemma_field_error_stop(*f, (i + 1) as nat, f.keys@.len(), zero_copy); }
            return Some(e);
        }
        i = i + 1;
    }
    None
}

/// Once a field has an error, it keeps it.
proof fn lemma_field_error_stop(f: FieldShape, i: nat, n: nat, zero_copy: bool)
    requires
        i <= n <= f.keys@.len(),
        spec_field_error(f, i, zero_copy) is Some,
    ensures
        spec_field_error(f, n, zero_copy) == spec_field_error(f, i, zero_copy),
    decreases n - i,
{
    if i < n {
        lemma_field_error_stop(f, i, (n - 1) as nat, zero_copy);
    }
}

/// Once the fields have an error, they keep it.
proof fn lemma_fields_error_stop(fields: Seq<FieldShape>, i: nat, n: nat, zero_copy: bool)
    requires
        i <= n <= fields.len(),
        spec_fields_error(fields, i, zero_copy) is Some,
    ensures
        spec_fields_error(fields, n, zero_copy) == spec_fields_error(fields, i, zero_copy),
    decreases n - i,
{
    if i < n {
        lemma_fields_error_stop(fields, i, (n - 1) as nat, zero_copy);
    }
}

/// Once the variants have an error, they keep it.
proof fn lemma_variants_error_stop(vs: Seq<VariantShape>, i: nat, n: nat, zero_copy: bool)
    requires
        i <= n <= vs.len(),
        spec_variants_error(vs, i, zero_copy) is Some,
    ensures
        spec_variants_error(vs, n, zero_copy) == spec_variants_error(vs, i, zero_copy),
    decreases n - i,
{
    if i < n {
        lemma_variants_error_stop(vs, i, (n - 1) as nat, zero_copy);
    }
}

/// The error of the first wrong field.
fn fields_error(fields: &Vec<FieldShape>, zero_copy: bool) -> (r: Option<String>)
    ensures
        match (r, spec_fields_error(fields@, fields@.len(), zero_copy)) {
            (None, None) => true,
            (Some(e), Some(x)) => e@ == x,
            _ => false,
        },
{
    let mut i: usize = 0;
    while i < fields.len()
        invariant
            i <= fields@.len(),
            spec_fields_error(fields@, i as nat, zero_copy) is None,
        decreases fields@.len() - i,
    {
        if let Some(e) = field_error(&fields[i], zero_copy) {
            proof { lemma_fields_error_stop(fields@, (i + 1) as nat, fields@.len(), zero_copy); }
            return Some(e);
        }
        i = i + 1;
    }
    None
}

/// The error of the fields of the data.
fn data_error(d: &DataShape, zero_copy: bool) -> (r: Option<String>)
    ensures
        match (r, spec_data_error(*d, zero_copy)) {
            (None, None) => true,
            (Some(e), Some(x)) => e@ == x,
            _ => false,
        },
{
    match d {
        DataShape::Struct(fields) => fields_error(fields, zero_copy),
        DataShape::Enum(vs) => {
            let mut i: usize = 0;
            while i < vs.len()
                invariant
                    i <= vs@.len(),
                    *d == DataShape::Enum(*vs),
                    spec_variants_error(vs@, i as nat, zero_copy) is None,
                decreases vs@.len() - i,
            {
                let v = &vs[i];
                let e = if v.has_epserde_attr {
                    Some(String::from_str("#[epserde(...)] attributes are not supported on enum variants; place field-level markers such as force_full_copy on the fields of the variant"))
                } else {
                    fields_error(&v.fields, zero_copy)
                };
                if let Some(e) = e {
                    proof { lemma_variants_error_stop(vs@, (i + 1) as nat, vs@.len(), zero_copy); }
                    return Some(e);
                }
                i = i + 1;
            }
            None
        },
        DataShape::Union => None,
    }
}

/// Once the resolution of a list fails, it fails with the same error.
proof fn lemma_resolve_error_stop(
    listed: Seq<Seq<char>>,
    i: nat,
    n: nat,
    attr: Seq<char>,
    zero_copy: bool,
    zero_copy_msg: Seq<char>,
    type_params: Seq<Seq<char>>,
    const_params: Seq<Seq<char>>,
    type_ident: Seq<char>,
)
    requires
        i <= n <= listed.len(),
        spec_resolve_error(listed, i, attr, zero_copy, zero_copy_msg, type_params, const_params, type_ident) is Some,
    ensures
        spec_resolve_error(listed, n, attr, zero_copy, zero_copy_msg, type_params, const_params, type_ident)
            == spec_resolve_error(listed, i, attr, zero_copy, zero_copy_msg, type_params, const_params, type_ident),
    decreases n - i,
{
    if i < n {
        lemma_resolve_error_stop(listed, i, (n - 1) as nat, attr, zero_copy, zero_copy_msg, type_params, const_params, type_ident);
    }
}

/// The error of the first identifier listed in `attr(...)` that is refused.
fn resolve_error(
    listed: &Vec<String>,
    attr: &str,
    zero_copy: bool,
    zero_copy_msg: &str,
    type_params: &Vec<String>,
    const_params: &Vec<String>,
    type_ident: &String,
) -> (r: Option<String>)
    ensures
        match (r, spec_resolve_error(spec_texts(listed@), listed@.len(), attr@, zero_copy, zero_copy_msg@,
            spec_texts(type_params@), spec_texts(const_params@), type_ident@)) {
            (None, None) => true,
            (Some(e), Some(x)) => e@ == x,
            _ => false,
        },
{
    let ghost args = (attr@, zero_copy, zero_copy_msg@, spec_texts(type_params@), spec_texts(const_params@), type_ident@);
    let mut i: usize = 0;
    while i < listed.len()
        invariant
            i <= listed@.len(),
            spec_resolve_error(spec_texts(listed@), i as nat, attr@, zero_copy, zero_copy_msg@, spec_texts(type_params@),
                spec_texts(const_params@), type_ident@) is None,
        decreases listed@.len() - i,
    {
        let id = &listed[i];
        assert(spec_texts(listed@)[i as int] == id@);
        let e = if zero_copy {
            Some(String::from_str(zero_copy_msg))
        } else if contains_text(type_params, id) {
            None
        } else if contains_text(const_params, id) {
            let mut m = String::from_str(attr);
            m.append(" expects a type parameter, but `");
            m.append(id.as_str());
            m.append("` is a const parameter");
            Some(m)
        } else {
            let mut m = String::from_str("`");
            m.append(id.as_str());
            m.append("` is not a type parameter of `");
            m.append(type_ident.as_str());
            m.append("`");
            Some(m)
        };
        if let Some(e) = e {
            proof {
                lemma_resolve_error_stop(spec_texts(listed@), (i + 1) as nat, listed@.len(), attr@, zero_copy, zero_copy_msg@,
                    spec_texts(type_params@), spec_texts(const_params@), type_ident@);
            }
            return Some(e);
        }
        i = i + 1;
    }
    None
}

/// Once a conflict is found, it stays the first one.
proof fn lemma_conflict_stop(phantom: Seq<Seq<char>>, i: nat, n: nat, full: Seq<Seq<char>>)
    requires
        i <= n <= phantom.len(),
        spec_conflict(phantom, i, full) is Some,
    ensures
        spec_conflict(phantom, n, full) == spec_conflict(phantom, i, full),
    decreases n - i,
{
    if i < n {
        lemma_conflict_stop(phantom, i, (n - 1) as nat, full);
    }
}

/// The first phantom parameter also listed as full-copy.
fn first_conflict(phantom: &Vec<String>, full: &Vec<String>) -> (r: Option<String>)
    ensures
        match (r, spec_conflict(spec_texts(phantom@), phantom@.len(), spec_texts(full@))) {
            (None, None) => true,
            (Some(x), Some(y)) => x@ == y,
            _ => false,
        },
{
    let mut i: usize = 0;
    while i < phantom.len()
        invariant
            i <= phantom@.len(),
            spec_conflict(spec_texts(phantom@), i as nat, spec_texts(full@)) is None,
        decreases phantom@.len() - i,
    {
        let id = &phantom[i];
        assert(spec_texts(phantom@)[i as int] == id@);
        if contains_text(full, id) {
            proof {
                assert(spec_conflict(spec_texts(phantom@), (i + 1) as nat, spec_texts(full@)) == Some(id@));
                lemma_conflict_stop(spec_texts(phantom@), (i + 1) as nat, phantom@.len(), spec_texts(full@));
            }
            return Some(id.clone());
        }
        i = i + 1;
    }
    None
}

/// Check a derive input: where clause, attributes, generic parameters, field
/// attributes, the `full_copy(...)` and `phantom(...)` lists, and unions (see
/// [`spec_check_derive`]); on success, give what the generation of the implementations
/// needs.
pub fn check_derive_input(input: &DeriveShape) -> (r: Result<DeriveContext, String>)
    ensures
        match (r, spec_check_derive(*input)) {
            (Ok(c), Ok(a)) => {
                let g = input.generics@;
                &&& spec_attrs_view(c.attrs) == a
                &&& c.attrs.is_repr_c == spec_texts(input.repr_hints@).contains("C"@)
                &&& spec_texts(c.type_const_params@) == spec_type_const_names(g, g.len())
                &&& spec_texts(c.const_params@) == spec_param_names(g, g.len(), false)
                &&& spec_texts(c.forced_params@) == a.full_copy_params
                &&& spec_texts(c.repl_params@) == spec_without(spec_param_names(g, g.len(), true), spec_param_names(
                    g,
                    g.len(),
                    true,
                ).len(), a.phantom_params)
            },
            (Err(e), Err(x)) => e@ == x,
            _ => false,
        },
{
    if input.has_where_clause {
        return Err(String::from_str("The derive macros do not support where clauses on the original type"));
    }
    let attrs = match parse_epserde_attrs(input.ident.as_str(), &input.repr_hints, &input.keys) {
        Ok(a) => a,
        Err(e) => return Err(e),
    };
    let (type_const_params, lifetime) = type_const_names(&input.generics);
    if lifetime {
        return Err(String::from_str("Lifetime generics are not supported"));
    }
    if let Some(e) = data_error(&input.data, attrs.is_zero_copy) {
        return Err(e);
    }
    let type_params = param_names(&input.generics, true);
    let const_params = param_names(&input.generics, false);
    if let Some(e) = resolve_error(&attrs.full_copy_params, "full_copy", attrs.is_zero_copy,
        "full_copy(...) cannot be used on a zero-copy type, as its deserialization type is a reference", &type_params,
        &const_params, &input.ident) {
        return Err(e);
    }
    if let Some(e) = resolve_error(&attrs.phantom_params, "phantom", attrs.is_zero_copy,
        "phantom(...) cannot be used on a zero-copy type, as it performs no substitution", &type_params,
        &const_params, &input.ident) {
        return Err(e);
    }
    let ghost a = spec_attrs_view(attrs);
    if let Some(id) = first_conflict(&attrs.phantom_params, &attrs.full_copy_params) {
        let mut m = String::from_str("`");
        m.append(id.as_str());
        m.append("` cannot be listed both in phantom(...) and full_copy(...)");
        return Err(m);
    }
    if let DataShape::Union = &input.data {
        return Err(String::from_str("Union types are not supported"));
    }
    let mut forced_params: Vec<String> = Vec::new();
    assert(spec_texts(forced_params@) =~= Seq::<Seq<char>>::empty());
    append_texts(&mut forced_params, &attrs.full_copy_params);
    assert(spec_texts(forced_params@) =~= a.full_copy_params);
    let mut repl_params: Vec<String> = Vec::new();
    let mut j: usize = 0;
    assert(spec_texts(repl_params@) =~= Seq::<Seq<char>>::empty());
    while j < type_params.len()
        invariant
            j <= type_params@.len(),
            a == spec_attrs_view(attrs),
            spec_texts(repl_params@) == spec_without(spec_texts(type_params@), j as nat, a.phantom_params),
        decreases type_params@.len() - j,
    {
        assert(spec_texts(type_params@)[j as int] == type_params@[j as int]@);
        if !contains_text(&attrs.phantom_params, &type_params[j]) {
            push_text(&mut repl_params, &type_params[j]);
        }
        j = j + 1;
    }
    Ok(DeriveContext { attrs, type_const_params, const_params, repl_params, forced_params })
}

/// Law: a parameter listed in `phantom(...)` is never replaceable, and every
/// replaceable parameter is a type parameter of the type.
pub proof fn lemma_phantom_not_replaceable(s: Seq<Seq<char>>, n: nat, drop: Seq<Seq<char>>, x: Seq<char>)
    requires
        n <= s.len(),
        spec_without(s, n, drop).contains(x),
    ensures
        !drop.contains(x),
        s.contains(x),
    decreases n,
{
    if n > 0 {
        let rest = spec_without(s, (n - 1) as nat, drop);
        if rest.contains(x) {
            lemma_phantom_not_replaceable(s, (n - 1) as nat, drop, x);
        } else {
            assert(x == s[n - 1]);
        }
    }
}

} // verus!
