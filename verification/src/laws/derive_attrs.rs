//! Laws on the `#[epserde(...)]` attributes: what a successful parse holds, in terms of
//! the keys given.

use vstd::prelude::*;
use crate::derive::attrs::{AttrsView, EpserdeKey, NestedItem, spec_apply_key, spec_bound_items, spec_keys, spec_no_attrs, spec_param_items, spec_parse_attrs};

verus! {

/// The identifiers of a list of items (other items count as no identifier).
pub open spec fn spec_item_idents(items: Seq<NestedItem>, n: nat) -> Seq<Seq<char>>
    decreases n,
{
    if n == 0 || n > items.len() {
        Seq::empty()
    } else {
        spec_item_idents(items, (n - 1) as nat) + match items[n - 1] {
            NestedItem::Path(id) => seq![id@],
            _ => Seq::empty(),
        }
    }
}

/// The identifiers listed, in source order, in the keys `name(...)` among the first `n`
/// keys.
pub open spec fn spec_listed(keys: Seq<EpserdeKey>, n: nat, name: Seq<char>) -> Seq<Seq<char>>
    decreases n,
{
    if n == 0 || n > keys.len() {
        Seq::empty()
    } else {
        spec_listed(keys, (n - 1) as nat, name) + match keys[n - 1] {
            EpserdeKey::List(k, items) => if k@ == name {
                spec_item_idents(items@, items@.len())
            } else {
                Seq::empty()
            },
            _ => Seq::empty(),
        }
    }
}

/// The values given to `which = "..."` in the items of a `bound(...)` list.
pub open spec fn spec_item_values(items: Seq<NestedItem>, n: nat, which: Seq<char>) -> Seq<Seq<char>>
    decreases n,
{
    if n == 0 || n > items.len() {
        Seq::empty()
    } else {
        spec_item_values(items, (n - 1) as nat, which) + match items[n - 1] {
            NestedItem::NameValue(k, v) => if k@ == which {
                seq![v@]
            } else {
                Seq::empty()
            },
            _ => Seq::empty(),
        }
    }
}

/// The values given to `which = "..."` in the `bound(...)` keys among the first `n`
/// keys, in source order.
pub open spec fn spec_bound_values(keys: Seq<EpserdeKey>, n: nat, which: Seq<char>) -> Seq<Seq<char>>
    decreases n,
{
    if n == 0 || n > keys.len() {
        Seq::empty()
    } else {
        spec_bound_values(keys, (n - 1) as nat, which) + match keys[n - 1] {
            EpserdeKey::List(k, items) => if k@ == "bound"@ {
                spec_item_values(items@, items@.len(), which)
            } else {
                Seq::empty()
            },
            _ => Seq::empty(),
        }
    }
}

/// Whether some of the first `n` keys is the bare key `name`.
pub open spec fn spec_has_flag(keys: Seq<EpserdeKey>, n: nat, name: Seq<char>) -> bool
    decreases n,
{
    if n == 0 || n > keys.len() {
        false
    } else {
        spec_has_flag(keys, (n - 1) as nat, name) || (keys[n - 1] matches EpserdeKey::Path(k) && k@ == name)
    }
}

proof fn lemma_param_items_idents(items: Seq<NestedItem>, n: nat)
    requires
        n <= items.len(),
        spec_param_items(items, n) is Ok,
    ensures
        spec_param_items(items, n)->Ok_0 == spec_item_idents(items, n),
    decreases n,
{
    if n > 0 {
        lemma_param_items_idents(items, (n - 1) as nat);
    }
}

proof fn lemma_bound_items_values(items: Seq<NestedItem>, n: nat, acc: AttrsView)
    requires
        n <= items.len(),
        spec_bound_items(items, n, acc) is Ok,
    ensures
        ({
            let a = spec_bound_items(items, n, acc)->Ok_0;
            &&& a.deser_bounds == acc.deser_bounds + spec_item_values(items, n, "deser"@)
            &&& a.ser_bounds == acc.ser_bounds + spec_item_values(items, n, "ser"@)
            &&& a.full_copy_params == acc.full_copy_params
            &&& a.phantom_params == acc.phantom_params
            &&& a.is_zero_copy == acc.is_zero_copy
            &&& a.is_deep_copy == acc.is_deep_copy
        }),
    decreases n,
{
    reveal_strlit("deser");
    reveal_strlit("ser");
    assert("deser"@ != "ser"@) by {
        assert("deser"@.len() == 5);
        assert("ser"@.len() == 3);
    }
    if n == 0 {
        assert(acc.deser_bounds + spec_item_values(items, n, "deser"@) =~= acc.deser_bounds);
        assert(acc.ser_bounds + spec_item_values(items, n, "ser"@) =~= acc.ser_bounds);
    } else {
        lemma_bound_items_values(items, (n - 1) as nat, acc);
        let d0 = spec_item_values(items, (n - 1) as nat, "deser"@);
        let s0 = spec_item_values(items, (n - 1) as nat, "ser"@);
        match items[n - 1] {
            NestedItem::NameValue(k, v) => {
                if k@ == "deser"@ {
                    assert(spec_item_values(items, n, "deser"@) == d0 + seq![v@]);
                    assert(spec_item_values(items, n, "ser"@) =~= s0);
                    assert(acc.deser_bounds + (d0 + seq![v@]) =~= (acc.deser_bounds + d0).push(v@));
                } else {
                    assert(spec_item_values(items, n, "deser"@) =~= d0);
                    assert(spec_item_values(items, n, "ser"@) == s0 + seq![v@]);
                    assert(acc.ser_bounds + (s0 + seq![v@]) =~= (acc.ser_bounds + s0).push(v@));
                }
            },
            _ => {},
        }
    }
}

proof fn lemma_keys_listed(keys: Seq<EpserdeKey>, n: nat)
    requires
        n <= keys.len(),
        spec_keys(keys, n) is Ok,
    ensures
        ({
            let a = spec_keys(keys, n)->Ok_0;
            &&& a.full_copy_params == spec_listed(keys, n, "full_copy"@)
            &&& a.phantom_params == spec_listed(keys, n, "phantom"@)
            &&& a.deser_bounds == spec_bound_values(keys, n, "deser"@)
            &&& a.ser_bounds == spec_bound_values(keys, n, "ser"@)
            &&& a.is_zero_copy == spec_has_flag(keys, n, "zero_copy"@)
            &&& a.is_deep_copy == spec_has_flag(keys, n, "deep_copy"@)
        }),
    decreases n,
{
    if n > 0 {
        reveal_strlit("bound");
        reveal_strlit("full_copy");
        reveal_strlit("phantom");
        reveal_strlit("zero_copy");
        reveal_strlit("deep_copy");
        assert("bound"@ != "full_copy"@ && "bound"@ != "phantom"@ && "full_copy"@ != "phantom"@) by {
            assert("bound"@.len() == 5);
            assert("full_copy"@.len() == 9);
            assert("phantom"@.len() == 7);
        }
        assert("zero_copy"@ != "deep_copy"@) by {
            assert("zero_copy"@[0] != "deep_copy"@[0]);
        }
        lemma_keys_listed(keys, (n - 1) as nat);
        let a = spec_keys(keys, (n - 1) as nat)->Ok_0;
        let b = spec_keys(keys, n)->Ok_0;
        assert(spec_apply_key(a, keys[n - 1]) == Ok::<AttrsView, Seq<char>>(b));
        match keys[n - 1] {
            EpserdeKey::Path(k) => {
                assert(spec_listed(keys, n, "full_copy"@) =~= spec_listed(keys, (n - 1) as nat, "full_copy"@));
                assert(spec_listed(keys, n, "phantom"@) =~= spec_listed(keys, (n - 1) as nat, "phantom"@));
                assert(spec_bound_values(keys, n, "deser"@) =~= spec_bound_values(keys, (n - 1) as nat, "deser"@));
                assert(spec_bound_values(keys, n, "ser"@) =~= spec_bound_values(keys, (n - 1) as nat, "ser"@));
            },
            EpserdeKey::List(k, items) => {
                if k@ == "bound"@ {
                    lemma_bound_items_values(items@, items@.len(), a);
                    assert(spec_listed(keys, n, "full_copy"@) =~= spec_listed(keys, (n - 1) as nat, "full_copy"@));
                    assert(spec_listed(keys, n, "phantom"@) =~= spec_listed(keys, (n - 1) as nat, "phantom"@));
                } else if k@ == "full_copy"@ {
                    lemma_param_items_idents(items@, items@.len());
                    assert(spec_listed(keys, n, "phantom"@) =~= spec_listed(keys, (n - 1) as nat, "phantom"@));
                    assert(spec_bound_values(keys, n, "deser"@) =~= spec_bound_values(keys, (n - 1) as nat, "deser"@));
                    assert(spec_bound_values(keys, n, "ser"@) =~= spec_bound_values(keys, (n - 1) as nat, "ser"@));
                } else {
                    lemma_param_items_idents(items@, items@.len());
                    assert(spec_listed(keys, n, "full_copy"@) =~= spec_listed(keys, (n - 1) as nat, "full_copy"@));
                    assert(spec_bound_values(keys, n, "deser"@) =~= spec_bound_values(keys, (n - 1) as nat, "deser"@));
                    assert(spec_bound_values(keys, n, "ser"@) =~= spec_bound_values(keys, (n - 1) as nat, "ser"@));
                }
            },
        }
    } else {
        assert(spec_keys(keys, 0) == Ok::<AttrsView, Seq<char>>(spec_no_attrs()));
    }
}

/// Law: attributes that parse hold every identifier listed in every `full_copy(...)`
/// and `phantom(...)` key, in source order, every bound given, in source order, and the
/// flags of the bare keys given; a zero-copy type is then `repr(C)` and not deep-copy.
pub proof fn lemma_parsed_attrs(type_ident: Seq<char>, repr_hints: Seq<Seq<char>>, keys: Seq<EpserdeKey>)
    requires
        spec_parse_attrs(type_ident, repr_hints, keys) is Ok,
    ensures
        ({
            let a = spec_parse_attrs(type_ident, repr_hints, keys)->Ok_0;
            &&& a.full_copy_params == spec_listed(keys, keys.len(), "full_copy"@)
            &&& a.phantom_params == spec_listed(keys, keys.len(), "phantom"@)
            &&& a.deser_bounds == spec_bound_values(keys, keys.len(), "deser"@)
            &&& a.ser_bounds == spec_bound_values(keys, keys.len(), "ser"@)
            &&& a.is_zero_copy == spec_has_flag(keys, keys.len(), "zero_copy"@)
            &&& a.is_deep_copy == spec_has_flag(keys, keys.len(), "deep_copy"@)
            &&& a.is_zero_copy ==> repr_hints.contains("C"@) && !a.is_deep_copy
        }),
{
    lemma_keys_listed(keys, keys.len());
}

/// Law: the identifiers listed by two groups of keys, one after the other, are those
/// of the first group followed by those of the second.
pub proof fn lemma_listed_concat(k1: Seq<EpserdeKey>, k2: Seq<EpserdeKey>, name: Seq<char>)
    ensures
        spec_listed(k1 + k2, (k1 + k2).len(), name) == spec_listed(k1, k1.len(), name) + spec_listed(k2, k2.len(), name),
    decreases k2.len(),
{
    if k2.len() == 0 {
        assert(k1 + k2 =~= k1);
        assert(spec_listed(k1, k1.len(), name) + spec_listed(k2, k2.len(), name) =~= spec_listed(k1, k1.len(), name));
    } else {
        let k2p = k2.drop_last();
        lemma_listed_concat(k1, k2p, name);
        assert((k1 + k2).drop_last() =~= k1 + k2p);
        assert((k1 + k2).take((k1 + k2).len() - 1) =~= (k1 + k2p).take((k1 + k2).len() - 1));
        assert(k2.take(k2.len() - 1) =~= k2p.take(k2.len() - 1));
        lemma_listed_prefix(k1 + k2, k1 + k2p, ((k1 + k2).len() - 1) as nat, name);
        lemma_listed_prefix(k2, k2p, (k2.len() - 1) as nat, name);
        assert(spec_listed(k1, k1.len(), name) + spec_listed(k2, k2.len(), name) =~= spec_listed(k1, k1.len(), name)
            + spec_listed(k2p, k2p.len(), name) + (spec_listed(k2, k2.len(), name).skip(spec_listed(k2p, k2p.len(), name).len() as int)));
    }
}

/// What the first `n` keys list depends only on those keys.
proof fn lemma_listed_prefix(a: Seq<EpserdeKey>, b: Seq<EpserdeKey>, n: nat, name: Seq<char>)
    requires
        n <= a.len(),
        n <= b.len(),
        a.take(n as int) == b.take(n as int),
    ensures
        spec_listed(a, n, name) == spec_listed(b, n, name),
    decreases n,
{
    if n > 0 {
        assert(a.take(n - 1) =~= a.take(n as int).take(n - 1));
        assert(b.take(n - 1) =~= b.take(n as int).take(n - 1));
        assert(a[n - 1] == a.take(n as int)[n - 1]);
        assert(b[n - 1] == b.take(n as int)[n - 1]);
        lemma_listed_prefix(a, b, (n - 1) as nat, name);
    }
}

} // verus!
