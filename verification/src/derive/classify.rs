//! The classification of fields and type parameters into ε-copy and full-copy.

use vstd::prelude::*;
use crate::derive::syntax::{TypeSyntax, collect_repl_param_occs, collect_seq_forced_deep_params, contains_name, lemma_names_push, spec_names, spec_repl_occs, spec_seq_forced};

verus! {

/// Whether some replaceable parameter of a field is not pinned to full copy: the field
/// is then ε-copy.
pub open spec fn spec_has_eps(occ: Set<Seq<char>>, forced: Set<Seq<char>>) -> bool {
    exists|p: Seq<char>| occ.contains(p) && !forced.contains(p)
}

/// The parameters of the type, as the classification sees them.
pub struct ClassifyContext {
    /// The type parameters that can be replaced: the declared ones but those listed in
    /// `phantom(...)`.
    pub repl_params: Vec<String>,
    /// The type parameters listed in `full_copy(...)`.
    pub forced_params: Vec<String>,
}

/// What the fields examined so far say of the type parameters.
pub struct FieldClassification {
    /// The ε-copy parameters: the replaceable parameters, not pinned, of ε-copy fields.
    pub eps_params: Vec<String>,
    /// The full-copy parameters: the replaceable parameters of fields marked
    /// `force_full_copy`, and the pinned ones of other fields.
    pub full_params: Vec<String>,
    /// The replaceable parameters of ε-copy fields, which need an explicit
    /// deserialization bound.
    pub deser_inner_params: Vec<String>,
    /// The parameters that ε-copy fields hold directly in a sequence, which must be
    /// deep-copy.
    pub seq_deep_params: Vec<String>,
    /// The indices of the ε-copy fields that also hold a pinned parameter, whose
    /// consistency is to be asserted.
    pub full_copy_check_fields: Vec<usize>,
}

impl FieldClassification {
    /// No field examined yet.
    pub fn new() -> (r: Self)
        ensures
            r.eps_params@.len() == 0,
            r.full_params@.len() == 0,
            r.deser_inner_params@.len() == 0,
            r.seq_deep_params@.len() == 0,
            r.full_copy_check_fields@.len() == 0,
    {
        FieldClassification {
            eps_params: Vec::new(),
            full_params: Vec::new(),
            deser_inner_params: Vec::new(),
            seq_deep_params: Vec::new(),
            full_copy_check_fields: Vec::new(),
        }
    }

    /// Examine the field number `field_index`, of type `field_type`, marked
    /// `force_full_copy` or not: record its replaceable parameters, and return whether
    /// the field is full-copy and whether a `force_full_copy` marker on it has no effect.
    ///
    /// A field marked `force_full_copy` is full-copy and all its replaceable parameters
    /// are full-copy; the marker has no effect when there are none. Otherwise the pinned
    /// parameters of the field are full-copy and the others ε-copy; the field is
    /// full-copy exactly when it has no ε-copy parameter. An ε-copy field also records
    /// all its replaceable parameters for a deserialization bound, the parameters it
    /// holds in sequences, and, when it holds a pinned parameter, its index.
    pub fn classify_field(&mut self, ctx: &ClassifyContext, field_index: usize, field_type: &TypeSyntax, force_full_copy_field: bool) -> (r: (bool, bool))
        ensures
            ({
                let occ = spec_repl_occs(*field_type, spec_names(ctx.repl_params@), false);
                let forced = spec_names(ctx.forced_params@);
                let has_eps = !force_full_copy_field && spec_has_eps(occ, forced);
                &&& r.0 == !has_eps
                &&& r.1 == (force_full_copy_field && occ =~= Set::<Seq<char>>::empty())
                &&& spec_names(final(self).full_params@) == spec_names(old(self).full_params@) + if force_full_copy_field {
                    occ
                } else {
                    occ.intersect(forced)
                }
                &&& spec_names(final(self).eps_params@) == spec_names(old(self).eps_params@) + if force_full_copy_field {
                    Set::empty()
                } else {
                    occ.difference(forced)
                }
                &&& spec_names(final(self).deser_inner_params@) == spec_names(old(self).deser_inner_params@) + if has_eps {
                    occ
                } else {
                    Set::empty()
                }
                &&& spec_names(final(self).seq_deep_params@) == spec_names(old(self).seq_deep_params@) + if has_eps {
                    spec_seq_forced(*field_type, spec_names(ctx.repl_params@), false)
                } else {
                    Set::empty()
                }
                &&& final(self).full_copy_check_fields@ == if has_eps && !occ.disjoint(forced) {
                    old(self).full_copy_check_fields@.push(field_index)
                } else {
                    old(self).full_copy_check_fields@
                }
            }),
    {
        let ghost occ_s = spec_repl_occs(*field_type, spec_names(ctx.repl_params@), false);
        let ghost forced = spec_names(ctx.forced_params@);
        let mut occ: Vec<String> = Vec::new();
        assert(spec_names(occ@) =~= Set::<Seq<char>>::empty());
        collect_repl_param_occs(field_type, &ctx.repl_params, &mut occ, false);
        assert(spec_names(occ@) =~= occ_s);
        let no_occ = occ.len() == 0;
        proof {
            if !no_occ {
                assert(spec_names(occ@).contains(occ@[0]@));
            }
        }
        let ghost full0 = spec_names(self.full_params@);
        let ghost eps0 = spec_names(self.eps_params@);
        let mut has_eps = false;
        let mut has_forced = false;
        let mut i: usize = 0;
        while i < occ.len()
            invariant
                i <= occ@.len(),
                spec_names(occ@) == occ_s,
                forced == spec_names(ctx.forced_params@),
                full0 == spec_names(old(self).full_params@),
                eps0 == spec_names(old(self).eps_params@),
                self.deser_inner_params == old(self).deser_inner_params,
                self.seq_deep_params == old(self).seq_deep_params,
                self.full_copy_check_fields == old(self).full_copy_check_fields,
                spec_names(self.full_params@) == full0 + if force_full_copy_field {
                    spec_names(occ@.take(i as int))
                } else {
                    spec_names(occ@.take(i as int)).intersect(forced)
                },
                spec_names(self.eps_params@) == eps0 + if force_full_copy_field {
                    Set::empty()
                } else {
                    spec_names(occ@.take(i as int)).difference(forced)
                },
                has_eps == (!force_full_copy_field && spec_has_eps(spec_names(occ@.take(i as int)), forced)),
                has_forced == (!force_full_copy_field && !spec_names(occ@.take(i as int)).disjoint(forced)),
            decreases occ@.len() - i,
        {
            let p = occ[i].clone();
            proof {
                lemma_names_push(occ@.take(i as int), p);
                assert(occ@.take(i as int).push(p) =~= occ@.take(i + 1));
            }
            let ghost taken = spec_names(occ@.take(i as int));
            if force_full_copy_field {
                proof { lemma_names_push(self.full_params@, p); }
                self.full_params.push(p);
                assert(spec_names(self.full_params@) =~= full0 + spec_names(occ@.take(i + 1)));
            } else if contains_name(&ctx.forced_params, &p) {
                proof { lemma_names_push(self.full_params@, p); }
                self.full_params.push(p);
                has_forced = true;
                assert(spec_names(self.full_params@) =~= full0 + spec_names(occ@.take(i + 1)).intersect(forced));
                assert(spec_names(self.eps_params@) =~= eps0 + spec_names(occ@.take(i + 1)).difference(forced));
                assert(spec_has_eps(spec_names(occ@.take(i + 1)), forced) == spec_has_eps(taken, forced));
                assert(spec_names(occ@.take(i + 1)).contains(p@) && forced.contains(p@));
            } else {
                proof { lemma_names_push(self.eps_params@, p); }
                self.eps_params.push(p);
                has_eps = true;
                assert(spec_names(self.full_params@) =~= full0 + spec_names(occ@.take(i + 1)).intersect(forced));
                assert(spec_names(self.eps_params@) =~= eps0 + spec_names(occ@.take(i + 1)).difference(forced));
                assert(spec_names(occ@.take(i + 1)).contains(p@) && !forced.contains(p@));
                assert(!spec_names(occ@.take(i + 1)).disjoint(forced) == !taken.disjoint(forced));
            }
            i = i + 1;
        }
        assert(occ@.take(i as int) =~= occ@);
        if force_full_copy_field {
            return (true, no_occ);
        }
        if has_eps {
            let ghost d0 = spec_names(self.deser_inner_params@);
            append_names(&mut self.deser_inner_params, &occ);
            let mut seq: Vec<String> = Vec::new();
            assert(spec_names(seq@) =~= Set::<Seq<char>>::empty());
            collect_seq_forced_deep_params(field_type, &ctx.repl_params, &mut seq, false);
            append_names(&mut self.seq_deep_params, &seq);
            if has_forced {
                self.full_copy_check_fields.push(field_index);
            }
        } else {
            assert(spec_names(self.deser_inner_params@) =~= spec_names(old(self).deser_inner_params@) + Set::empty());
            assert(spec_names(self.seq_deep_params@) =~= spec_names(old(self).seq_deep_params@) + Set::empty());
        }
        (!has_eps, false)
    }
}

/// Append the strings of `w` to `v`.
fn append_names(v: &mut Vec<String>, w: &Vec<String>)
    ensures
        spec_names(final(v)@) == spec_names(old(v)@) + spec_names(w@),
{
    let mut i: usize = 0;
    assert(spec_names(w@.take(0)) =~= Set::<Seq<char>>::empty());
    while i < w.len()
        invariant
            i <= w@.len(),
            spec_names(v@) == spec_names(old(v)@) + spec_names(w@.take(i as int)),
        decreases w@.len() - i,
    {
        let s = w[i].clone();
        proof {
            lemma_names_push(v@, s);
            lemma_names_push(w@.take(i as int), s);
            assert(w@.take(i as int).push(s) =~= w@.take(i + 1));
        }
        v.push(s);
        i = i + 1;
        assert(spec_names(v@) =~= spec_names(old(v)@) + spec_names(w@.take(i as int)));
    }
    assert(w@.take(i as int) =~= w@);
}

/// Whether `ty` holds a replaceable parameter of `type_params`: an unmarked field holds
/// one exactly when it is ε-copy (when no parameter is pinned).
pub fn has_repl_param(ty: &TypeSyntax, type_params: &Vec<String>) -> (r: bool)
    ensures
        r == !(spec_repl_occs(*ty, spec_names(type_params@), false) =~= Set::<Seq<char>>::empty()),
{
    let mut occ: Vec<String> = Vec::new();
    assert(spec_names(occ@) =~= Set::<Seq<char>>::empty());
    collect_repl_param_occs(ty, type_params, &mut occ, false);
    assert(spec_names(occ@) =~= spec_repl_occs(*ty, spec_names(type_params@), false));
    if occ.len() == 0 {
        false
    } else {
        assert(spec_names(occ@).contains(occ@[0]@));
        true
    }
}

/// Records into `out` the conflict parameters: the ε-copy parameters that are also
/// full-copy.
pub fn push_conflict_idents(eps_params: &Vec<String>, full_params: &Vec<String>, out: &mut Vec<String>)
    ensures
        spec_names(final(out)@) == spec_names(old(out)@) + spec_names(eps_params@).intersect(spec_names(full_params@)),
{
    let ghost full = spec_names(full_params@);
    let mut i: usize = 0;
    assert(spec_names(eps_params@.take(0)) =~= Set::<Seq<char>>::empty());
    assert(spec_names(out@) =~= spec_names(old(out)@) + spec_names(eps_params@.take(0)).intersect(full));
    while i < eps_params.len()
        invariant
            i <= eps_params@.len(),
            full == spec_names(full_params@),
            spec_names(out@) == spec_names(old(out)@) + spec_names(eps_params@.take(i as int)).intersect(full),
        decreases eps_params@.len() - i,
    {
        let p = eps_params[i].clone();
        proof {
            lemma_names_push(eps_params@.take(i as int), p);
            assert(eps_params@.take(i as int).push(p) =~= eps_params@.take(i + 1));
        }
        if contains_name(full_params, &p) {
            proof { lemma_names_push(out@, p); }
            out.push(p);
        }
        i = i + 1;
        assert(spec_names(out@) =~= spec_names(old(out)@) + spec_names(eps_params@.take(i as int)).intersect(full));
    }
    assert(eps_params@.take(i as int) =~= eps_params@);
}

} // verus!
