//! Field types as plain values, and the occurrences of type parameters in them.

use vstd::prelude::*;
use vstd::string::*;

verus! {

/// The syntax of a type, as far as the derive macros look into it.
pub enum TypeSyntax {
    /// A path such as `Vec<T>` or `T::Assoc`; `qself` tells whether it has a qualified
    /// self (`<T as Trait>::Assoc`) and `leading_colon` whether it starts with `::`.
    Path { qself: bool, leading_colon: bool, segments: Vec<PathSegment> },
    /// A slice `[T]`.
    Slice(Box<TypeSyntax>),
    /// An array `[T; N]`.
    Array(Box<TypeSyntax>),
    /// A tuple `(A, B, ...)`.
    Tuple(Vec<TypeSyntax>),
    /// A reference `&T` or `&mut T`.
    Reference(Box<TypeSyntax>),
    /// A parenthesized type `(T)`.
    Paren(Box<TypeSyntax>),
    /// A type in an invisible group, as produced by macro expansion.
    Group(Box<TypeSyntax>),
    /// Any other type (function pointers, trait objects, ...).
    Other,
}

/// A segment of a path: a name and its arguments.
pub struct PathSegment {
    pub ident: String,
    pub arguments: PathArguments,
}

/// The arguments of a path segment.
pub enum PathArguments {
    /// No arguments, as in `T`.
    Empty,
    /// Arguments in angle brackets, as in `Vec<T>`.
    AngleBracketed(Vec<GenericArgument>),
    /// Arguments in parentheses, as in `Fn(A) -> B`.
    Parenthesized,
}

/// An argument in angle brackets.
pub enum GenericArgument {
    /// A type, as in `Vec<T>`.
    Type(TypeSyntax),
    /// An associated type binding, as in `Iterator<Item = T>`: its type.
    AssocType(TypeSyntax),
    /// Any other argument (lifetimes, constants, constraints).
    Other,
}

/// The names held by a list of strings.
pub open spec fn spec_names(v: Seq<String>) -> Set<Seq<char>> {
    Set::new(|x: Seq<char>| exists|i: int| 0 <= i < v.len() && #[trigger] v[i]@ == x)
}

/// Pushing a string adds its name.
pub proof fn lemma_names_push(v: Seq<String>, s: String)
    ensures
        spec_names(v.push(s)) == spec_names(v).insert(s@),
{
    assert forall|x: Seq<char>| spec_names(v.push(s)).contains(x) implies spec_names(v).insert(s@).contains(x) by {
        let i = choose|i: int| 0 <= i < v.push(s).len() && #[trigger] v.push(s)[i]@ == x;
        if i < v.len() {
            assert(v[i]@ == x);
        }
    }
    assert forall|x: Seq<char>| spec_names(v).insert(s@).contains(x) implies spec_names(v.push(s)).contains(x) by {
        if x == s@ {
            assert(v.push(s)[v.len() as int]@ == x);
        } else {
            let i = choose|i: int| 0 <= i < v.len() && #[trigger] v[i]@ == x;
            assert(v.push(s)[i]@ == x);
        }
    }
    assert(spec_names(v.push(s)) =~= spec_names(v).insert(s@));
}

/// Whether `name` is among the strings of `v`.
pub fn contains_name(v: &Vec<String>, name: &String) -> (r: bool)
    ensures
        r == spec_names(v@).contains(name@),
{
    let mut i: usize = 0;
    while i < v.len()
        invariant
            i <= v@.len(),
            forall|j: int| 0 <= j < i ==> v@[j]@ != name@,
        decreases v@.len() - i,
    {
        if v[i] == *name {
            assert(v@[i as int]@ == name@);
            return true;
        }
        i = i + 1;
    }
    assert(!spec_names(v@).contains(name@));
    false
}

/// Whether the string `s` is `name`.
pub fn is_named(s: &String, name: &str) -> (r: bool)
    ensures
        r == (s@ == name@),
{
    let n = String::from_str(name);
    *s == n
}

/// The parameter a path names when it is bare: no leading `::`, one segment, no
/// arguments (a qualified self is not looked at).
pub open spec fn spec_bare_name(leading_colon: bool, segments: Seq<PathSegment>) -> Option<Seq<char>> {
    if !leading_colon && segments.len() == 1 && segments[0].arguments is Empty {
        Some(segments[0].ident@)
    } else {
        None
    }
}

/// The replaceable parameters among `params` occurring in `ty`: the parameters
/// occurring bare, outside `PhantomData<...>`, reached through type and associated
/// type arguments, tuples, arrays, slices, parentheses and groups.
pub open spec fn spec_repl_occs(ty: TypeSyntax, params: Set<Seq<char>>, inside_phantom: bool) -> Set<Seq<char>>
    decreases ty, 3nat, 0nat,
{
    match ty {
        TypeSyntax::Path { qself, leading_colon, segments } => {
            let bare = spec_bare_name(leading_colon, segments@);
            if !inside_phantom && bare is Some && params.contains(bare->0) {
                set![bare->0]
            } else {
                spec_repl_segments(ty, segments@.len(), params, inside_phantom)
            }
        },
        TypeSyntax::Tuple(elems) => spec_repl_elems(ty, elems@.len(), params, inside_phantom),
        TypeSyntax::Slice(e) => spec_repl_occs(*e, params, inside_phantom),
        TypeSyntax::Array(e) => spec_repl_occs(*e, params, inside_phantom),
        TypeSyntax::Paren(e) => spec_repl_occs(*e, params, inside_phantom),
        TypeSyntax::Group(e) => spec_repl_occs(*e, params, inside_phantom),
        _ => Set::empty(),
    }
}

/// The replaceable parameters in the first `n` elements of the tuple `ty`.
pub open spec fn spec_repl_elems(ty: TypeSyntax, n: nat, params: Set<Seq<char>>, inside_phantom: bool) -> Set<Seq<char>>
    decreases ty, 2nat, n,
{
    match ty {
        TypeSyntax::Tuple(elems) => if n == 0 || n > elems@.len() {
            Set::empty()
        } else {
            proof { assert(decreases_to!(elems => elems[n - 1])); }
            spec_repl_elems(ty, (n - 1) as nat, params, inside_phantom) + spec_repl_occs(elems[n - 1], params, inside_phantom)
        },
        _ => Set::empty(),
    }
}

/// The replaceable parameters in the arguments of the first `n` segments of the path
/// `ty`.
pub open spec fn spec_repl_segments(ty: TypeSyntax, n: nat, params: Set<Seq<char>>, inside_phantom: bool) -> Set<Seq<char>>
    decreases ty, 2nat, n,
{
    match ty {
        TypeSyntax::Path { segments, .. } => if n == 0 || n > segments@.len() {
            Set::empty()
        } else {
            spec_repl_segments(ty, (n - 1) as nat, params, inside_phantom) + spec_repl_args(ty, (n - 1) as nat, spec_arg_count(segments[n - 1]), params, inside_phantom)
        },
        _ => Set::empty(),
    }
}

/// The number of arguments in angle brackets of a segment.
pub open spec fn spec_arg_count(seg: PathSegment) -> nat {
    match seg.arguments {
        PathArguments::AngleBracketed(args) => args@.len(),
        _ => 0,
    }
}

/// The replaceable parameters in the first `m` arguments of the segment `k` of the
/// path `ty`; below `PhantomData` nothing counts.
pub open spec fn spec_repl_args(ty: TypeSyntax, k: nat, m: nat, params: Set<Seq<char>>, inside_phantom: bool) -> Set<Seq<char>>
    decreases ty, 1nat, m,
{
    match ty {
        TypeSyntax::Path { segments, .. } => if k >= segments@.len() || m == 0 {
            Set::empty()
        } else {
            let seg = segments[k as int];
            let ph = inside_phantom || seg.ident@ == "PhantomData"@;
            match seg.arguments {
                PathArguments::AngleBracketed(args) => if m > args@.len() {
                    Set::empty()
                } else {
                    proof {
                        assert(decreases_to!(segments => segments[k as int]));
                        assert(decreases_to!(args => args[m - 1]));
                    }
                    spec_repl_args(ty, k, (m - 1) as nat, params, inside_phantom) + match args[m - 1] {
                        GenericArgument::Type(t) => spec_repl_occs(t, params, ph),
                        GenericArgument::AssocType(t) => spec_repl_occs(t, params, ph),
                        _ => Set::empty(),
                    }
                },
                _ => Set::empty(),
            }
        },
        _ => Set::empty(),
    }
}

/// Records into `out` every replaceable parameter of `type_params` that occurs in `ty`
/// (see [`spec_repl_occs`]).
pub fn collect_repl_param_occs(ty: &TypeSyntax, type_params: &Vec<String>, out: &mut Vec<String>, inside_phantom: bool)
    ensures
        spec_names(final(out)@) == spec_names(old(out)@) + spec_repl_occs(*ty, spec_names(type_params@), inside_phantom),
    decreases ty,
{
    let ghost params = spec_names(type_params@);
    match ty {
        TypeSyntax::Path { qself: _, leading_colon, segments } => {
            if !inside_phantom && !*leading_colon && segments.len() == 1 {
                if let PathArguments::Empty = &segments[0].arguments {
                    if contains_name(type_params, &segments[0].ident) {
                        let name = segments[0].ident.clone();
                        proof { lemma_names_push(out@, name); }
                        out.push(name);
                        assert(spec_names(out@) =~= spec_names(old(out)@) + spec_repl_occs(*ty, params, inside_phantom));
                        return;
                    }
                }
            }
            let mut k: usize = 0;
            assert(spec_names(out@) =~= spec_names(old(out)@) + spec_repl_segments(*ty, 0, params, inside_phantom));
            while k < segments.len()
                invariant
                    k <= segments@.len(),
                    *ty == (TypeSyntax::Path { qself: ty->qself, leading_colon: *leading_colon, segments: *segments }),
                    spec_names(out@) == spec_names(old(out)@) + spec_repl_segments(*ty, k as nat, params, inside_phantom),
                    params == spec_names(type_params@),
                decreases segments@.len() - k,
            {
                let seg = &segments[k];
                let ph = inside_phantom || is_named(&seg.ident, "PhantomData");
                proof { reveal_strlit("PhantomData"); }
                let ghost before = spec_names(out@);
                match &seg.arguments {
                    PathArguments::AngleBracketed(args) => {
                        let mut j: usize = 0;
                        assert(spec_names(out@) =~= before + spec_repl_args(*ty, k as nat, 0, params, inside_phantom));
                        while j < args.len()
                            invariant
                                j <= args@.len(),
                                k < segments@.len(),
                                *ty == (TypeSyntax::Path { qself: ty->qself, leading_colon: *leading_colon, segments: *segments }),
                                seg == segments@[k as int],
                                seg.arguments == PathArguments::AngleBracketed(*args),
                                ph == (inside_phantom || seg.ident@ == "PhantomData"@),
                                spec_names(out@) == before + spec_repl_args(*ty, k as nat, j as nat, params, inside_phantom),
                                params == spec_names(type_params@),
                            decreases args@.len() - j,
                        {
                            let ghost mid = spec_names(out@);
                            proof {
                                assert(decreases_to!(segments => segments[k as int]));
                                assert(decreases_to!(args => args[j as int]));
                            }
                            match &args[j] {
                                GenericArgument::Type(t) => collect_repl_param_occs(t, type_params, out, ph),
                                GenericArgument::AssocType(t) => collect_repl_param_occs(t, type_params, out, ph),
                                GenericArgument::Other => {},
                            }
                            j = j + 1;
                            assert(spec_names(out@) =~= before + spec_repl_args(*ty, k as nat, j as nat, params, inside_phantom));
                        }
                        assert(spec_arg_count(*seg) == args@.len());
                    },
                    _ => {
                        assert(spec_repl_args(*ty, k as nat, spec_arg_count(*seg), params, inside_phantom) =~= Set::empty());
                    },
                }
                k = k + 1;
                assert(spec_names(out@) =~= spec_names(old(out)@) + spec_repl_segments(*ty, k as nat, params, inside_phantom));
            }
        },
        TypeSyntax::Tuple(elems) => {
            let mut k: usize = 0;
            assert(spec_names(out@) =~= spec_names(old(out)@) + spec_repl_elems(*ty, 0, params, inside_phantom));
            while k < elems.len()
                invariant
                    k <= elems@.len(),
                    *ty == TypeSyntax::Tuple(*elems),
                    spec_names(out@) == spec_names(old(out)@) + spec_repl_elems(*ty, k as nat, params, inside_phantom),
                    params == spec_names(type_params@),
                decreases elems@.len() - k,
            {
                proof { assert(decreases_to!(elems => elems[k as int])); }
                collect_repl_param_occs(&elems[k], type_params, out, inside_phantom);
                k = k + 1;
                assert(spec_names(out@) =~= spec_names(old(out)@) + spec_repl_elems(*ty, k as nat, params, inside_phantom));
            }
        },
        TypeSyntax::Slice(e) => collect_repl_param_occs(e, type_params, out, inside_phantom),
        TypeSyntax::Array(e) => collect_repl_param_occs(e, type_params, out, inside_phantom),
        TypeSyntax::Paren(e) => collect_repl_param_occs(e, type_params, out, inside_phantom),
        TypeSyntax::Group(e) => collect_repl_param_occs(e, type_params, out, inside_phantom),
        _ => {
            assert(spec_names(out@) =~= spec_names(old(out)@) + spec_repl_occs(*ty, params, inside_phantom));
        },
    }
}

/// The parameter of `params` that `ty` is, when it is a bare path with no qualified
/// self: no leading `::`, one segment, no arguments.
pub open spec fn spec_bare_param(ty: TypeSyntax, params: Set<Seq<char>>) -> Set<Seq<char>> {
    match ty {
        TypeSyntax::Path { qself, leading_colon, segments } => {
            let bare = spec_bare_name(leading_colon, segments@);
            if !qself && bare is Some && params.contains(bare->0) {
                set![bare->0]
            } else {
                Set::empty()
            }
        },
        _ => Set::empty(),
    }
}

/// The parameters among `params` occurring in `ty` as the direct element of a `Vec<...>`,
/// a slice or an array, outside `PhantomData<...>`: those that must be deep-copy so that
/// the sequence holding them has an ε-copy type of the same shape.
pub open spec fn spec_seq_forced(ty: TypeSyntax, params: Set<Seq<char>>, inside_phantom: bool) -> Set<Seq<char>>
    decreases ty, 3nat, 0nat,
{
    match ty {
        TypeSyntax::Path { segments, .. } => spec_seq_segments(ty, segments@.len(), params, inside_phantom),
        TypeSyntax::Tuple(elems) => spec_seq_elems(ty, elems@.len(), params, inside_phantom),
        TypeSyntax::Slice(e) => (if !inside_phantom { spec_bare_param(*e, params) } else { Set::empty() })
            + spec_seq_forced(*e, params, inside_phantom),
        TypeSyntax::Array(e) => (if !inside_phantom { spec_bare_param(*e, params) } else { Set::empty() })
            + spec_seq_forced(*e, params, inside_phantom),
        TypeSyntax::Reference(e) => spec_seq_forced(*e, params, inside_phantom),
        TypeSyntax::Paren(e) => spec_seq_forced(*e, params, inside_phantom),
        TypeSyntax::Group(e) => spec_seq_forced(*e, params, inside_phantom),
        TypeSyntax::Other => Set::empty(),
    }
}

/// The parameters forced to deep copy by the first `n` elements of the tuple `ty`.
pub open spec fn spec_seq_elems(ty: TypeSyntax, n: nat, params: Set<Seq<char>>, inside_phantom: bool) -> Set<Seq<char>>
    decreases ty, 2nat, n,
{
    match ty {
        TypeSyntax::Tuple(elems) => if n == 0 || n > elems@.len() {
            Set::empty()
        } else {
            proof { assert(decreases_to!(elems => elems[n - 1])); }
            spec_seq_elems(ty, (n - 1) as nat, params, inside_phantom) + spec_seq_forced(elems[n - 1], params, inside_phantom)
        },
        _ => Set::empty(),
    }
}

/// The parameters forced to deep copy by the arguments of the first `n` segments of the
/// path `ty`.
pub open spec fn spec_seq_segments(ty: TypeSyntax, n: nat, params: Set<Seq<char>>, inside_phantom: bool) -> Set<Seq<char>>
    decreases ty, 2nat, n,
{
    match ty {
        TypeSyntax::Path { segments, .. } => if n == 0 || n > segments@.len() {
            Set::empty()
        } else {
            spec_seq_segments(ty, (n - 1) as nat, params, inside_phantom) + spec_seq_args(ty, (n - 1) as nat, spec_arg_count(segments[n - 1]), params, inside_phantom)
        },
        _ => Set::empty(),
    }
}

/// The parameters forced to deep copy by the first `m` type arguments of the segment
/// `k` of the path `ty`: an argument of `Vec` that is a bare parameter, and what the
/// arguments force in turn.
pub open spec fn spec_seq_args(ty: TypeSyntax, k: nat, m: nat, params: Set<Seq<char>>, inside_phantom: bool) -> Set<Seq<char>>
    decreases ty, 1nat, m,
{
    match ty {
        TypeSyntax::Path { segments, .. } => if k >= segments@.len() || m == 0 {
            Set::empty()
        } else {
            let seg = segments[k as int];
            let ph = inside_phantom || seg.ident@ == "PhantomData"@;
            let is_vec = seg.ident@ == "Vec"@;
            match seg.arguments {
                PathArguments::AngleBracketed(args) => if m > args@.len() {
                    Set::empty()
                } else {
                    proof {
                        assert(decreases_to!(segments => segments[k as int]));
                        assert(decreases_to!(args => args[m - 1]));
                    }
                    spec_seq_args(ty, k, (m - 1) as nat, params, inside_phantom) + match args[m - 1] {
                        GenericArgument::Type(t) => (if is_vec && !ph { spec_bare_param(t, params) } else { Set::empty() })
                            + spec_seq_forced(t, params, ph),
                        _ => Set::empty(),
                    }
                },
                _ => Set::empty(),
            }
        },
        _ => Set::empty(),
    }
}

/// Records into `out` the parameter of `type_params` that `ty` is, if `ty` is a bare
/// parameter (see [`spec_bare_param`]).
fn record_if_bare(ty: &TypeSyntax, type_params: &Vec<String>, out: &mut Vec<String>)
    ensures
        spec_names(final(out)@) == spec_names(old(out)@) + spec_bare_param(*ty, spec_names(type_params@)),
{
    if let TypeSyntax::Path { qself, leading_colon, segments } = ty {
        if !*qself && !*leading_colon && segments.len() == 1 {
            if let PathArguments::Empty = &segments[0].arguments {
                if contains_name(type_params, &segments[0].ident) {
                    let name = segments[0].ident.clone();
                    proof { lemma_names_push(out@, name); }
                    out.push(name);
                    assert(spec_names(out@) =~= spec_names(old(out)@) + spec_bare_param(*ty, spec_names(type_params@)));
                    return;
                }
            }
        }
    }
    assert(spec_names(out@) =~= spec_names(old(out)@) + spec_bare_param(*ty, spec_names(type_params@)));
}

/// Records into `out` every parameter of `type_params` that occurs as the direct element
/// of a `Vec<...>`, a slice or an array anywhere within `ty`, outside `PhantomData<...>`
/// (see [`spec_seq_forced`]). Such a parameter must be deep-copy for ε-copy stability:
/// were it zero-copy, the sequence would be ε-copied as a borrowed slice, a type of
/// another shape.
pub fn collect_seq_forced_deep_params(ty: &TypeSyntax, type_params: &Vec<String>, out: &mut Vec<String>, inside_phantom: bool)
    ensures
        spec_names(final(out)@) == spec_names(old(out)@) + spec_seq_forced(*ty, spec_names(type_params@), inside_phantom),
    decreases ty,
{
    let ghost params = spec_names(type_params@);
    match ty {
        TypeSyntax::Path { qself: _, leading_colon: _, segments } => {
            let mut k: usize = 0;
            assert(spec_names(out@) =~= spec_names(old(out)@) + spec_seq_segments(*ty, 0, params, inside_phantom));
            while k < segments.len()
                invariant
                    k <= segments@.len(),
                    *ty == (TypeSyntax::Path { qself: ty->qself, leading_colon: ty->leading_colon, segments: *segments }),
                    spec_names(out@) == spec_names(old(out)@) + spec_seq_segments(*ty, k as nat, params, inside_phantom),
                    params == spec_names(type_params@),
                decreases segments@.len() - k,
            {
                let seg = &segments[k];
                let ph = inside_phantom || is_named(&seg.ident, "PhantomData");
                let is_vec = is_named(&seg.ident, "Vec");
                proof {
                    reveal_strlit("PhantomData");
                    reveal_strlit("Vec");
                }
                let ghost before = spec_names(out@);
                match &seg.arguments {
                    PathArguments::AngleBracketed(args) => {
                        let mut j: usize = 0;
                        assert(spec_names(out@) =~= before + spec_seq_args(*ty, k as nat, 0, params, inside_phantom));
                        while j < args.len()
                            invariant
                                j <= args@.len(),
                                k < segments@.len(),
                                *ty == (TypeSyntax::Path { qself: ty->qself, leading_colon: ty->leading_colon, segments: *segments }),
                                seg == segments@[k as int],
                                seg.arguments == PathArguments::AngleBracketed(*args),
                                ph == (inside_phantom || seg.ident@ == "PhantomData"@),
                                is_vec == (seg.ident@ == "Vec"@),
                                spec_names(out@) == before + spec_seq_args(*ty, k as nat, j as nat, params, inside_phantom),
                                params == spec_names(type_params@),
                            decreases args@.len() - j,
                        {
                            proof {
                                assert(decreases_to!(segments => segments[k as int]));
                                assert(decreases_to!(args => args[j as int]));
                            }
                            if let GenericArgument::Type(t) = &args[j] {
                                if is_vec && !ph {
                                    record_if_bare(t, type_params, out);
                                }
                                collect_seq_forced_deep_params(t, type_params, out, ph);
                            }
                            j = j + 1;
                            assert(spec_names(out@) =~= before + spec_seq_args(*ty, k as nat, j as nat, params, inside_phantom));
                        }
                        assert(spec_arg_count(*seg) == args@.len());
                    },
                    _ => {
                        assert(spec_seq_args(*ty, k as nat, spec_arg_count(*seg), params, inside_phantom) =~= Set::empty());
                    },
                }
                k = k + 1;
                assert(spec_names(out@) =~= spec_names(old(out)@) + spec_seq_segments(*ty, k as nat, params, inside_phantom));
            }
        },
        TypeSyntax::Tuple(elems) => {
            let mut k: usize = 0;
            assert(spec_names(out@) =~= spec_names(old(out)@) + spec_seq_elems(*ty, 0, params, inside_phantom));
            while k < elems.len()
                invariant
                    k <= elems@.len(),
                    *ty == TypeSyntax::Tuple(*elems),
                    spec_names(out@) == spec_names(old(out)@) + spec_seq_elems(*ty, k as nat, params, inside_phantom),
                    params == spec_names(type_params@),
                decreases elems@.len() - k,
            {
                proof { assert(decreases_to!(elems => elems[k as int])); }
                collect_seq_forced_deep_params(&elems[k], type_params, out, inside_phantom);
                k = k + 1;
                assert(spec_names(out@) =~= spec_names(old(out)@) + spec_seq_elems(*ty, k as nat, params, inside_phantom));
            }
        },
        TypeSyntax::Slice(e) => {
            if !inside_phantom {
                record_if_bare(e, type_params, out);
            }
            collect_seq_forced_deep_params(e, type_params, out, inside_phantom);
            assert(spec_names(out@) =~= spec_names(old(out)@) + spec_seq_forced(*ty, params, inside_phantom));
        },
        TypeSyntax::Array(e) => {
            if !inside_phantom {
                record_if_bare(e, type_params, out);
            }
            collect_seq_forced_deep_params(e, type_params, out, inside_phantom);
            assert(spec_names(out@) =~= spec_names(old(out)@) + spec_seq_forced(*ty, params, inside_phantom));
        },
        TypeSyntax::Reference(e) => collect_seq_forced_deep_params(e, type_params, out, inside_phantom),
        TypeSyntax::Paren(e) => collect_seq_forced_deep_params(e, type_params, out, inside_phantom),
        TypeSyntax::Group(e) => collect_seq_forced_deep_params(e, type_params, out, inside_phantom),
        TypeSyntax::Other => {
            assert(spec_names(out@) =~= spec_names(old(out)@) + spec_seq_forced(*ty, params, inside_phantom));
        },
    }
}

/// Law: below `PhantomData<...>` no parameter counts, neither as replaceable nor as
/// forced to deep copy.
pub proof fn lemma_phantom_hides(ty: TypeSyntax, params: Set<Seq<char>>)
    ensures
        spec_repl_occs(ty, params, true) == Set::<Seq<char>>::empty(),
        spec_seq_forced(ty, params, true) == Set::<Seq<char>>::empty(),
    decreases ty, 3nat, 0nat,
{
    match ty {
        TypeSyntax::Path { segments, .. } => {
            lemma_phantom_hides_segments(ty, segments@.len(), params);
        },
        TypeSyntax::Tuple(elems) => {
            lemma_phantom_hides_elems(ty, elems@.len(), params);
        },
        TypeSyntax::Slice(e) => {
            lemma_phantom_hides(*e, params);
            assert(spec_seq_forced(ty, params, true) =~= Set::<Seq<char>>::empty());
        },
        TypeSyntax::Array(e) => {
            lemma_phantom_hides(*e, params);
            assert(spec_seq_forced(ty, params, true) =~= Set::<Seq<char>>::empty());
        },
        TypeSyntax::Reference(e) => lemma_phantom_hides(*e, params),
        TypeSyntax::Paren(e) => lemma_phantom_hides(*e, params),
        TypeSyntax::Group(e) => lemma_phantom_hides(*e, params),
        TypeSyntax::Other => {},
    }
}

proof fn lemma_phantom_hides_elems(ty: TypeSyntax, n: nat, params: Set<Seq<char>>)
    ensures
        spec_repl_elems(ty, n, params, true) == Set::<Seq<char>>::empty(),
        spec_seq_elems(ty, n, params, true) == Set::<Seq<char>>::empty(),
    decreases ty, 2nat, n,
{
    if let TypeSyntax::Tuple(elems) = ty {
        if n > 0 && n <= elems@.len() {
            assert(decreases_to!(elems => elems[n - 1]));
            lemma_phantom_hides_elems(ty, (n - 1) as nat, params);
            lemma_phantom_hides(elems[n - 1], params);
            assert(spec_repl_elems(ty, n, params, true) =~= Set::<Seq<char>>::empty());
            assert(spec_seq_elems(ty, n, params, true) =~= Set::<Seq<char>>::empty());
        }
    }
}

proof fn lemma_phantom_hides_segments(ty: TypeSyntax, n: nat, params: Set<Seq<char>>)
    ensures
        spec_repl_segments(ty, n, params, true) == Set::<Seq<char>>::empty(),
        spec_seq_segments(ty, n, params, true) == Set::<Seq<char>>::empty(),
    decreases ty, 2nat, n,
{
    if let TypeSyntax::Path { segments, .. } = ty {
        if n > 0 && n <= segments@.len() {
            lemma_phantom_hides_segments(ty, (n - 1) as nat, params);
            lemma_phantom_hides_args(ty, (n - 1) as nat, spec_arg_count(segments[n - 1]), params);
            assert(spec_repl_segments(ty, n, params, true) =~= Set::<Seq<char>>::empty());
            assert(spec_seq_segments(ty, n, params, true) =~= Set::<Seq<char>>::empty());
        }
    }
}

proof fn lemma_phantom_hides_args(ty: TypeSyntax, k: nat, m: nat, params: Set<Seq<char>>)
    ensures
        spec_repl_args(ty, k, m, params, true) == Set::<Seq<char>>::empty(),
        spec_seq_args(ty, k, m, params, true) == Set::<Seq<char>>::empty(),
    decreases ty, 1nat, m,
{
    if let TypeSyntax::Path { segments, .. } = ty {
        if k < segments@.len() && m > 0 {
            let seg = segments[k as int];
            if let PathArguments::AngleBracketed(args) = seg.arguments {
                if m <= args@.len() {
                    assert(decreases_to!(segments => segments[k as int]));
                    assert(decreases_to!(args => args[m - 1]));
                    lemma_phantom_hides_args(ty, k, (m - 1) as nat, params);
                    match args[m - 1] {
                        GenericArgument::Type(t) => lemma_phantom_hides(t, params),
                        GenericArgument::AssocType(t) => lemma_phantom_hides(t, params),
                        GenericArgument::Other => {},
                    }
                    assert(spec_repl_args(ty, k, m, params, true) =~= Set::<Seq<char>>::empty());
                    assert(spec_seq_args(ty, k, m, params, true) =~= Set::<Seq<char>>::empty());
                }
            }
        }
    }
}

} // verus!
