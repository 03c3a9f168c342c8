//! Laws on the two walks of field types made by the derive analysis: which occurrences
//! of type parameters each collects.

use vstd::prelude::*;
use crate::derive::syntax::{GenericArgument, PathArguments, PathSegment, TypeSyntax, spec_arg_count, spec_bare_name, spec_bare_param, spec_repl_args, spec_repl_elems, spec_repl_occs, spec_repl_segments, spec_seq_args, spec_seq_elems, spec_seq_forced, spec_seq_segments};

verus! {

/// Whether `ty` is a path naming `x` bare: no leading `::`, one segment, no arguments.
pub open spec fn spec_is_bare(ty: TypeSyntax, x: Seq<char>) -> bool {
    ty matches TypeSyntax::Path { leading_colon, segments, .. } && !leading_colon && segments@.len() == 1
        && segments@[0].arguments is Empty && segments@[0].ident@ == x
}

/// The type of an argument, when it is a type or an associated type.
pub open spec fn spec_arg_type(a: GenericArgument) -> Option<TypeSyntax> {
    match a {
        GenericArgument::Type(t) => Some(t),
        GenericArgument::AssocType(t) => Some(t),
        GenericArgument::Other => None,
    }
}

/// The arguments in angle brackets of a segment.
pub open spec fn spec_seg_args(seg: PathSegment) -> Seq<GenericArgument> {
    match seg.arguments {
        PathArguments::AngleBracketed(args) => args@,
        _ => Seq::empty(),
    }
}

// ---- replaceable parameters ----

proof fn lemma_repl_elems_members(ty: TypeSyntax, n: nat, params: Set<Seq<char>>, ph: bool, x: Seq<char>)
    requires
        ty is Tuple,
        n <= ty->Tuple_0@.len(),
    ensures
        spec_repl_elems(ty, n, params, ph).contains(x) <==> exists|i: int|
            0 <= i < n && #[trigger] spec_repl_occs(ty->Tuple_0@[i], params, ph).contains(x),
    decreases n,
{
    if n > 0 {
        lemma_repl_elems_members(ty, (n - 1) as nat, params, ph, x);
        if spec_repl_elems(ty, n, params, ph).contains(x) {
            if !spec_repl_elems(ty, (n - 1) as nat, params, ph).contains(x) {
                assert(spec_repl_occs(ty->Tuple_0@[n - 1], params, ph).contains(x));
            }
        }
        if exists|i: int| 0 <= i < n && #[trigger] spec_repl_occs(ty->Tuple_0@[i], params, ph).contains(x) {
            let i = choose|i: int| 0 <= i < n && #[trigger] spec_repl_occs(ty->Tuple_0@[i], params, ph).contains(x);
            if i < n - 1 {
                assert(spec_repl_elems(ty, (n - 1) as nat, params, ph).contains(x));
            }
        }
    }
}

proof fn lemma_repl_args_members(ty: TypeSyntax, k: nat, m: nat, params: Set<Seq<char>>, ph: bool, x: Seq<char>)
    requires
        ty is Path,
        k < ty->segments@.len(),
        m <= spec_seg_args(ty->segments@[k as int]).len(),
    ensures
        spec_repl_args(ty, k, m, params, ph).contains(x) <==> exists|j: int|
            0 <= j < m && (#[trigger] spec_arg_type(spec_seg_args(ty->segments@[k as int])[j])) is Some
                && spec_repl_occs(spec_arg_type(spec_seg_args(ty->segments@[k as int])[j])->0, params, ph
                || ty->segments@[k as int].ident@ == "PhantomData"@).contains(x),
    decreases m,
{
    if m > 0 {
        lemma_repl_args_members(ty, k, (m - 1) as nat, params, ph, x);
        let seg = ty->segments@[k as int];
        let args = spec_seg_args(seg);
        let phk = ph || seg.ident@ == "PhantomData"@;
        if spec_repl_args(ty, k, m, params, ph).contains(x) {
            if !spec_repl_args(ty, k, (m - 1) as nat, params, ph).contains(x) {
                assert(spec_arg_type(args[m - 1]) is Some && spec_repl_occs(spec_arg_type(args[m - 1])->0, params, phk).contains(x));
            }
        }
        if exists|j: int| 0 <= j < m && (#[trigger] spec_arg_type(args[j])) is Some && spec_repl_occs(spec_arg_type(args[j])->0, params, phk).contains(x) {
            let j = choose|j: int| 0 <= j < m && (#[trigger] spec_arg_type(args[j])) is Some && spec_repl_occs(spec_arg_type(args[j])->0, params, phk).contains(x);
            if j < m - 1 {
                assert(spec_repl_args(ty, k, (m - 1) as nat, params, ph).contains(x));
            }
        }
    }
}

proof fn lemma_repl_segments_members(ty: TypeSyntax, n: nat, params: Set<Seq<char>>, ph: bool, x: Seq<char>)
    requires
        ty is Path,
        n <= ty->segments@.len(),
    ensures
        spec_repl_segments(ty, n, params, ph).contains(x) <==> exists|k: int|
            0 <= k < n && #[trigger] spec_repl_args(ty, k as nat, spec_arg_count(ty->segments@[k]), params, ph).contains(x),
    decreases n,
{
    if n > 0 {
        lemma_repl_segments_members(ty, (n - 1) as nat, params, ph, x);
        if spec_repl_segments(ty, n, params, ph).contains(x) {
            if !spec_repl_segments(ty, (n - 1) as nat, params, ph).contains(x) {
                assert(spec_repl_args(ty, (n - 1) as nat, spec_arg_count(ty->segments@[n - 1]), params, ph).contains(x));
            }
        }
        if exists|k: int| 0 <= k < n && #[trigger] spec_repl_args(ty, k as nat, spec_arg_count(ty->segments@[k]), params, ph).contains(x) {
            let k = choose|k: int| 0 <= k < n && #[trigger] spec_repl_args(ty, k as nat, spec_arg_count(ty->segments@[k]), params, ph).contains(x);
            if k < n - 1 {
                assert(spec_repl_segments(ty, (n - 1) as nat, params, ph).contains(x));
            }
        }
    }
}

/// Law: a parameter named bare, outside `PhantomData`, is collected, and nothing else
/// is collected from that path.
pub proof fn lemma_repl_bare(ty: TypeSyntax, params: Set<Seq<char>>, x: Seq<char>)
    requires
        spec_is_bare(ty, x),
        params.contains(x),
    ensures
        spec_repl_occs(ty, params, false) == set![x],
{
}

/// Law: slices, arrays, parentheses and groups collect what their element collects;
/// references and other types collect nothing.
pub proof fn lemma_repl_wrappers(e: TypeSyntax, params: Set<Seq<char>>, ph: bool)
    ensures
        spec_repl_occs(TypeSyntax::Slice(Box::new(e)), params, ph) == spec_repl_occs(e, params, ph),
        spec_repl_occs(TypeSyntax::Array(Box::new(e)), params, ph) == spec_repl_occs(e, params, ph),
        spec_repl_occs(TypeSyntax::Paren(Box::new(e)), params, ph) == spec_repl_occs(e, params, ph),
        spec_repl_occs(TypeSyntax::Group(Box::new(e)), params, ph) == spec_repl_occs(e, params, ph),
        spec_repl_occs(TypeSyntax::Reference(Box::new(e)), params, ph) == Set::<Seq<char>>::empty(),
        spec_repl_occs(TypeSyntax::Other, params, ph) == Set::<Seq<char>>::empty(),
{
}

/// Law: a tuple collects exactly what its elements collect.
pub proof fn lemma_repl_tuple(ty: TypeSyntax, params: Set<Seq<char>>, ph: bool, x: Seq<char>)
    requires
        ty is Tuple,
    ensures
        spec_repl_occs(ty, params, ph).contains(x) <==> exists|i: int|
            0 <= i < ty->Tuple_0@.len() && #[trigger] spec_repl_occs(ty->Tuple_0@[i], params, ph).contains(x),
{
    lemma_repl_elems_members(ty, ty->Tuple_0@.len(), params, ph, x);
}

/// Law: a path that is not a bare parameter collects exactly what the types among the
/// arguments of its segments collect, below a `PhantomData` segment with the phantom
/// flag set (and then nothing, see [`lemma_phantom_hides`]).
pub proof fn lemma_repl_path(ty: TypeSyntax, params: Set<Seq<char>>, ph: bool, x: Seq<char>)
    requires
        ty is Path,
        !(!ph && spec_bare_name(ty->leading_colon, ty->segments@) is Some && params.contains(
            spec_bare_name(ty->leading_colon, ty->segments@)->0,
        )),
    ensures
        spec_repl_occs(ty, params, ph).contains(x) <==> exists|k: int, j: int|
            0 <= k < ty->segments@.len() && 0 <= j < spec_seg_args(ty->segments@[k]).len()
                && (#[trigger] spec_arg_type(spec_seg_args(ty->segments@[k])[j])) is Some && spec_repl_occs(
                spec_arg_type(spec_seg_args(ty->segments@[k])[j])->0,
                params,
                ph || ty->segments@[k].ident@ == "PhantomData"@,
            ).contains(x),
{
    let segs = ty->segments@;
    lemma_repl_segments_members(ty, segs.len(), params, ph, x);
    if spec_repl_occs(ty, params, ph).contains(x) {
        let k = choose|k: int| 0 <= k < segs.len() && #[trigger] spec_repl_args(ty, k as nat, spec_arg_count(segs[k]), params, ph).contains(x);
        assert(spec_arg_count(segs[k]) == spec_seg_args(segs[k]).len());
        lemma_repl_args_members(ty, k as nat, spec_arg_count(segs[k]), params, ph, x);
        let j = choose|j: int| 0 <= j < spec_arg_count(segs[k]) && (#[trigger] spec_arg_type(spec_seg_args(segs[k])[j])) is Some
            && spec_repl_occs(spec_arg_type(spec_seg_args(segs[k])[j])->0, params, ph || segs[k].ident@ == "PhantomData"@).contains(x);
        assert(spec_arg_type(spec_seg_args(segs[k])[j]) is Some);
    }
    if exists|k: int, j: int| 0 <= k < segs.len() && 0 <= j < spec_seg_args(segs[k]).len()
        && (#[trigger] spec_arg_type(spec_seg_args(segs[k])[j])) is Some && spec_repl_occs(
        spec_arg_type(spec_seg_args(segs[k])[j])->0, params, ph || segs[k].ident@ == "PhantomData"@).contains(x) {
        let (k, j) = choose|k: int, j: int| 0 <= k < segs.len() && 0 <= j < spec_seg_args(segs[k]).len()
            && (#[trigger] spec_arg_type(spec_seg_args(segs[k])[j])) is Some && spec_repl_occs(
            spec_arg_type(spec_seg_args(segs[k])[j])->0, params, ph || segs[k].ident@ == "PhantomData"@).contains(x);
        assert(spec_arg_count(segs[k]) == spec_seg_args(segs[k]).len());
        lemma_repl_args_members(ty, k as nat, spec_arg_count(segs[k]), params, ph, x);
        assert(spec_repl_args(ty, k as nat, spec_arg_count(segs[k]), params, ph).contains(x));
    }
}

// ---- parameters forced to deep copy ----

/// The type of an argument, when it is a type (associated types are not looked at).
pub open spec fn spec_arg_plain_type(a: GenericArgument) -> Option<TypeSyntax> {
    match a {
        GenericArgument::Type(t) => Some(t),
        _ => None,
    }
}

/// Whether `ty` names the parameter `x` of `params` bare, with no qualified self.
pub open spec fn spec_is_bare_param(ty: TypeSyntax, params: Set<Seq<char>>, x: Seq<char>) -> bool {
    spec_is_bare(ty, x) && !ty->qself && params.contains(x)
}

/// What an argument `t` of the segment `seg` forces, the segment being below
/// `PhantomData` or not (`ph`): `t` itself when it is a bare parameter held by a `Vec`
/// outside `PhantomData`, and what `t` forces in turn.
pub open spec fn spec_seq_arg_forces(seg: PathSegment, t: TypeSyntax, params: Set<Seq<char>>, ph: bool, x: Seq<char>) -> bool {
    let phk = ph || seg.ident@ == "PhantomData"@;
    (seg.ident@ == "Vec"@ && !phk && spec_is_bare_param(t, params, x)) || spec_seq_forced(t, params, phk).contains(x)
}

proof fn lemma_bare_param_members(t: TypeSyntax, params: Set<Seq<char>>, x: Seq<char>)
    ensures
        spec_bare_param(t, params).contains(x) <==> spec_is_bare_param(t, params, x),
{
}

proof fn lemma_seq_elems_members(ty: TypeSyntax, n: nat, params: Set<Seq<char>>, ph: bool, x: Seq<char>)
    requires
        ty is Tuple,
        n <= ty->Tuple_0@.len(),
    ensures
        spec_seq_elems(ty, n, params, ph).contains(x) <==> exists|i: int|
            0 <= i < n && #[trigger] spec_seq_forced(ty->Tuple_0@[i], params, ph).contains(x),
    decreases n,
{
    if n > 0 {
        lemma_seq_elems_members(ty, (n - 1) as nat, params, ph, x);
        if spec_seq_elems(ty, n, params, ph).contains(x) {
            if !spec_seq_elems(ty, (n - 1) as nat, params, ph).contains(x) {
                assert(spec_seq_forced(ty->Tuple_0@[n - 1], params, ph).contains(x));
            }
        }
        if exists|i: int| 0 <= i < n && #[trigger] spec_seq_forced(ty->Tuple_0@[i], params, ph).contains(x) {
            let i = choose|i: int| 0 <= i < n && #[trigger] spec_seq_forced(ty->Tuple_0@[i], params, ph).contains(x);
            if i < n - 1 {
                assert(spec_seq_elems(ty, (n - 1) as nat, params, ph).contains(x));
            }
        }
    }
}

proof fn lemma_seq_args_members(ty: TypeSyntax, k: nat, m: nat, params: Set<Seq<char>>, ph: bool, x: Seq<char>)
    requires
        ty is Path,
        k < ty->segments@.len(),
        m <= spec_seg_args(ty->segments@[k as int]).len(),
    ensures
        spec_seq_args(ty, k, m, params, ph).contains(x) <==> exists|j: int|
            0 <= j < m && (#[trigger] spec_arg_plain_type(spec_seg_args(ty->segments@[k as int])[j])) is Some
                && spec_seq_arg_forces(ty->segments@[k as int], spec_arg_plain_type(spec_seg_args(ty->segments@[k as int])[j])->0, params, ph, x),
    decreases m,
{
    if m > 0 {
        lemma_seq_args_members(ty, k, (m - 1) as nat, params, ph, x);
        let seg = ty->segments@[k as int];
        let args = spec_seg_args(seg);
        if spec_arg_plain_type(args[m - 1]) is Some {
            lemma_bare_param_members(spec_arg_plain_type(args[m - 1])->0, params, x);
        }
        if spec_seq_args(ty, k, m, params, ph).contains(x) {
            if !spec_seq_args(ty, k, (m - 1) as nat, params, ph).contains(x) {
                assert(spec_arg_plain_type(args[m - 1]) is Some && spec_seq_arg_forces(seg, spec_arg_plain_type(args[m - 1])->0, params, ph, x));
            }
        }
        if exists|j: int| 0 <= j < m && (#[trigger] spec_arg_plain_type(args[j])) is Some && spec_seq_arg_forces(seg, spec_arg_plain_type(args[j])->0, params, ph, x) {
            let j = choose|j: int| 0 <= j < m && (#[trigger] spec_arg_plain_type(args[j])) is Some && spec_seq_arg_forces(seg, spec_arg_plain_type(args[j])->0, params, ph, x);
            if j < m - 1 {
                assert(spec_seq_args(ty, k, (m - 1) as nat, params, ph).contains(x));
            }
        }
    }
}

proof fn lemma_seq_segments_members(ty: TypeSyntax, n: nat, params: Set<Seq<char>>, ph: bool, x: Seq<char>)
    requires
        ty is Path,
        n <= ty->segments@.len(),
    ensures
        spec_seq_segments(ty, n, params, ph).contains(x) <==> exists|k: int|
            0 <= k < n && #[trigger] spec_seq_args(ty, k as nat, spec_arg_count(ty->segments@[k]), params, ph).contains(x),
    decreases n,
{
    if n > 0 {
        lemma_seq_segments_members(ty, (n - 1) as nat, params, ph, x);
        if spec_seq_segments(ty, n, params, ph).contains(x) {
            if !spec_seq_segments(ty, (n - 1) as nat, params, ph).contains(x) {
                assert(spec_seq_args(ty, (n - 1) as nat, spec_arg_count(ty->segments@[n - 1]), params, ph).contains(x));
            }
        }
        if exists|k: int| 0 <= k < n && #[trigger] spec_seq_args(ty, k as nat, spec_arg_count(ty->segments@[k]), params, ph).contains(x) {
            let k = choose|k: int| 0 <= k < n && #[trigger] spec_seq_args(ty, k as nat, spec_arg_count(ty->segments@[k]), params, ph).contains(x);
            if k < n - 1 {
                assert(spec_seq_segments(ty, (n - 1) as nat, params, ph).contains(x));
            }
        }
    }
}

/// Law: a slice or an array holding a bare parameter directly, outside `PhantomData`,
/// forces it to deep copy; besides, slices, arrays, references, parentheses and groups
/// force what their element forces, and other types nothing.
pub proof fn lemma_seq_wrappers(e: TypeSyntax, params: Set<Seq<char>>, ph: bool, x: Seq<char>)
    ensures
        spec_seq_forced(TypeSyntax::Slice(Box::new(e)), params, ph).contains(x) <==> (!ph && spec_is_bare_param(e, params, x))
            || spec_seq_forced(e, params, ph).contains(x),
        spec_seq_forced(TypeSyntax::Array(Box::new(e)), params, ph).contains(x) <==> (!ph && spec_is_bare_param(e, params, x))
            || spec_seq_forced(e, params, ph).contains(x),
        spec_seq_forced(TypeSyntax::Reference(Box::new(e)), params, ph) == spec_seq_forced(e, params, ph),
        spec_seq_forced(TypeSyntax::Paren(Box::new(e)), params, ph) == spec_seq_forced(e, params, ph),
        spec_seq_forced(TypeSyntax::Group(Box::new(e)), params, ph) == spec_seq_forced(e, params, ph),
        spec_seq_forced(TypeSyntax::Other, params, ph) == Set::<Seq<char>>::empty(),
{
    lemma_bare_param_members(e, params, x);
}

/// Law: a tuple forces exactly what its elements force.
pub proof fn lemma_seq_tuple(ty: TypeSyntax, params: Set<Seq<char>>, ph: bool, x: Seq<char>)
    requires
        ty is Tuple,
    ensures
        spec_seq_forced(ty, params, ph).contains(x) <==> exists|i: int|
            0 <= i < ty->Tuple_0@.len() && #[trigger] spec_seq_forced(ty->Tuple_0@[i], params, ph).contains(x),
{
    lemma_seq_elems_members(ty, ty->Tuple_0@.len(), params, ph, x);
}

/// Law: a path forces exactly, over the type arguments of its segments, the bare
/// parameters that a `Vec` segment holds outside `PhantomData`, and what the arguments
/// force in turn (below a `PhantomData` segment with the phantom flag set).
pub proof fn lemma_seq_path(ty: TypeSyntax, params: Set<Seq<char>>, ph: bool, x: Seq<char>)
    requires
        ty is Path,
    ensures
        spec_seq_forced(ty, params, ph).contains(x) <==> exists|k: int, j: int|
            0 <= k < ty->segments@.len() && 0 <= j < spec_seg_args(ty->segments@[k]).len()
                && (#[trigger] spec_arg_plain_type(spec_seg_args(ty->segments@[k])[j])) is Some && spec_seq_arg_forces(
                ty->segments@[k],
                spec_arg_plain_type(spec_seg_args(ty->segments@[k])[j])->0,
                params,
                ph,
                x,
            ),
{
    let segs = ty->segments@;
    lemma_seq_segments_members(ty, segs.len(), params, ph, x);
    if spec_seq_forced(ty, params, ph).contains(x) {
        let k = choose|k: int| 0 <= k < segs.len() && #[trigger] spec_seq_args(ty, k as nat, spec_arg_count(segs[k]), params, ph).contains(x);
        assert(spec_arg_count(segs[k]) == spec_seg_args(segs[k]).len());
        lemma_seq_args_members(ty, k as nat, spec_arg_count(segs[k]), params, ph, x);
        let j = choose|j: int| 0 <= j < spec_arg_count(segs[k]) && (#[trigger] spec_arg_plain_type(spec_seg_args(segs[k])[j])) is Some
            && spec_seq_arg_forces(segs[k], spec_arg_plain_type(spec_seg_args(segs[k])[j])->0, params, ph, x);
        assert(spec_arg_plain_type(spec_seg_args(segs[k])[j]) is Some);
    }
    if exists|k: int, j: int| 0 <= k < segs.len() && 0 <= j < spec_seg_args(segs[k]).len()
        && (#[trigger] spec_arg_plain_type(spec_seg_args(segs[k])[j])) is Some && spec_seq_arg_forces(segs[k],
        spec_arg_plain_type(spec_seg_args(segs[k])[j])->0, params, ph, x) {
        let (k, j) = choose|k: int, j: int| 0 <= k < segs.len() && 0 <= j < spec_seg_args(segs[k]).len()
            && (#[trigger] spec_arg_plain_type(spec_seg_args(segs[k])[j])) is Some && spec_seq_arg_forces(segs[k],
            spec_arg_plain_type(spec_seg_args(segs[k])[j])->0, params, ph, x);
        assert(spec_arg_count(segs[k]) == spec_seg_args(segs[k]).len());
        lemma_seq_args_members(ty, k as nat, spec_arg_count(segs[k]), params, ph, x);
        assert(spec_seq_args(ty, k as nat, spec_arg_count(segs[k]), params, ph).contains(x));
    }
}

} // verus!
