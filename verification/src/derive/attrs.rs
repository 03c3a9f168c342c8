//! The `#[epserde(...)]` attributes of a type, and what they declare.

use vstd::prelude::*;
use vstd::string::*;
use crate::derive::syntax::is_named;

verus! {

/// An item inside the parentheses of a key, as in `bound(deser = "...")` or
/// `full_copy(T, U)`.
pub enum NestedItem {
    /// A single identifier, as in `T`.
    Path(String),
    /// A name and a string literal, as in `deser = "T: Copy"`.
    NameValue(String, String),
    /// Anything else (a path of several segments, a list, a non-string value), with the
    /// text of its name.
    Other(String),
}

/// A key of an `#[epserde(...)]` attribute of a type, in source order.
pub enum EpserdeKey {
    /// A bare key, as in `zero_copy`.
    Path(String),
    /// A key with a parenthesized list, as in `full_copy(T)`.
    List(String, Vec<NestedItem>),
}

/// What the `#[epserde(...)]` attributes of a type declare.
pub struct EpserdeAttrs {
    /// Whether the type has `#[repr(C)]`.
    pub is_repr_c: bool,
    /// Whether `zero_copy` was given.
    pub is_zero_copy: bool,
    /// Whether `deep_copy` was given.
    pub is_deep_copy: bool,
    /// The predicates given with `bound(deser = "...")`, as text.
    pub deser_bounds: Vec<String>,
    /// The predicates given with `bound(ser = "...")`, as text.
    pub ser_bounds: Vec<String>,
    /// The parameters listed in `full_copy(...)`.
    pub full_copy_params: Vec<String>,
    /// The parameters listed in `phantom(...)`.
    pub phantom_params: Vec<String>,
}

/// The text of a list of strings.
pub open spec fn spec_texts(v: Seq<String>) -> Seq<Seq<char>> {
    v.map_values(|s: String| s@)
}

/// What the keys read so far declare.
pub struct AttrsView {
    pub is_zero_copy: bool,
    pub is_deep_copy: bool,
    pub deser_bounds: Seq<Seq<char>>,
    pub ser_bounds: Seq<Seq<char>>,
    pub full_copy_params: Seq<Seq<char>>,
    pub phantom_params: Seq<Seq<char>>,
}

/// Nothing declared.
pub open spec fn spec_no_attrs() -> AttrsView {
    AttrsView {
        is_zero_copy: false,
        is_deep_copy: false,
        deser_bounds: Seq::empty(),
        ser_bounds: Seq::empty(),
        full_copy_params: Seq::empty(),
        phantom_params: Seq::empty(),
    }
}

/// What the attributes hold.
pub open spec fn spec_attrs_view(a: EpserdeAttrs) -> AttrsView {
    AttrsView {
        is_zero_copy: a.is_zero_copy,
        is_deep_copy: a.is_deep_copy,
        deser_bounds: spec_texts(a.deser_bounds@),
        ser_bounds: spec_texts(a.ser_bounds@),
        full_copy_params: spec_texts(a.full_copy_params@),
        phantom_params: spec_texts(a.phantom_params@),
    }
}

/// The error for a key that is not one of the five.
pub open spec fn spec_unknown_key_msg() -> Seq<char> {
    "expected \"zero_copy\", \"deep_copy\", \"bound\", \"full_copy\", or \"phantom\""@
}

/// The error for a list key given without a list.
pub open spec fn spec_needs_list_msg(name: Seq<char>) -> Seq<char> {
    "\""@ + name + "\" is a type-level attribute and requires a parenthesized list of type parameters, e.g. #[epserde("@
        + name + "(T))]"@
}

/// The outcome of the first `n` items of a `bound(...)` list.
pub open spec fn spec_bound_items(items: Seq<NestedItem>, n: nat, acc: AttrsView) -> Result<AttrsView, Seq<char>>
    decreases n,
{
    if n == 0 || n > items.len() {
        Ok(acc)
    } else {
        match spec_bound_items(items, (n - 1) as nat, acc) {
            Err(e) => Err(e),
            Ok(a) => match items[n - 1] {
                NestedItem::NameValue(name, value) => if name@ == "deser"@ {
                    Ok(AttrsView { deser_bounds: a.deser_bounds.push(value@), ..a })
                } else if name@ == "ser"@ {
                    Ok(AttrsView { ser_bounds: a.ser_bounds.push(value@), ..a })
                } else {
                    Err("expected `deser` or `ser`"@)
                },
                NestedItem::Path(name) => spec_bound_name_error(name@),
                NestedItem::Other(name) => spec_bound_name_error(name@),
            },
        }
    }
}

/// The error for an item of `bound(...)` that is not a name with a value.
pub open spec fn spec_bound_name_error(name: Seq<char>) -> Result<AttrsView, Seq<char>> {
    if name == "deser"@ || name == "ser"@ {
        Err("expected `=`"@)
    } else {
        Err("expected `deser` or `ser`"@)
    }
}

/// The parameters of the first `n` items of a parameter list, or the error for the
/// first item that is not an identifier.
pub open spec fn spec_param_items(items: Seq<NestedItem>, n: nat) -> Result<Seq<Seq<char>>, Seq<char>>
    decreases n,
{
    if n == 0 || n > items.len() {
        Ok(Seq::empty())
    } else {
        match spec_param_items(items, (n - 1) as nat) {
            Err(e) => Err(e),
            Ok(ps) => match items[n - 1] {
                NestedItem::Path(id) => Ok(ps.push(id@)),
                _ => Err("expected a type-parameter identifier"@),
            },
        }
    }
}

/// The outcome of one key.
pub open spec fn spec_apply_key(acc: AttrsView, key: EpserdeKey) -> Result<AttrsView, Seq<char>> {
    match key {
        EpserdeKey::Path(name) => if name@ == "zero_copy"@ {
            Ok(AttrsView { is_zero_copy: true, ..acc })
        } else if name@ == "deep_copy"@ {
            Ok(AttrsView { is_deep_copy: true, ..acc })
        } else if name@ == "bound"@ {
            Err("expected parentheses"@)
        } else if name@ == "full_copy"@ || name@ == "phantom"@ {
            Err(spec_needs_list_msg(name@))
        } else {
            Err(spec_unknown_key_msg())
        },
        EpserdeKey::List(name, items) => if name@ == "bound"@ {
            spec_bound_items(items@, items@.len(), acc)
        } else if name@ == "full_copy"@ {
            match spec_param_items(items@, items@.len()) {
                Ok(ps) => Ok(AttrsView { full_copy_params: acc.full_copy_params + ps, ..acc }),
                Err(e) => Err(e),
            }
        } else if name@ == "phantom"@ {
            match spec_param_items(items@, items@.len()) {
                Ok(ps) => Ok(AttrsView { phantom_params: acc.phantom_params + ps, ..acc }),
                Err(e) => Err(e),
            }
        } else if name@ == "zero_copy"@ || name@ == "deep_copy"@ {
            Err("expected `,`"@)
        } else {
            Err(spec_unknown_key_msg())
        },
    }
}

/// The outcome of the first `n` keys: what they declare, or the error of the first key
/// that is wrong.
pub open spec fn spec_keys(keys: Seq<EpserdeKey>, n: nat) -> Result<AttrsView, Seq<char>>
    decreases n,
{
    if n == 0 || n > keys.len() {
        Ok(spec_no_attrs())
    } else {
        match spec_keys(keys, (n - 1) as nat) {
            Err(e) => Err(e),
            Ok(a) => spec_apply_key(a, keys[n - 1]),
        }
    }
}

/// The error for a zero-copy type without `repr(C)`.
pub open spec fn spec_not_repr_c_msg(type_ident: Seq<char>) -> Seq<char> {
    "Type "@ + type_ident + " is declared as zero-copy, but it is not repr(C)"@
}

/// The error for a type declared both zero-copy and deep-copy.
pub open spec fn spec_both_copies_msg(type_ident: Seq<char>) -> Seq<char> {
    "Type "@ + type_ident + " is declared as both zero-copy and deep-copy"@
}

/// The outcome of parsing the attributes of the type `type_ident` with the
/// representation hints `repr_hints` and the `#[epserde(...)]` keys `keys`: the first
/// wrong key; then a zero-copy type must be `repr(C)` and cannot be deep-copy.
pub open spec fn spec_parse_attrs(type_ident: Seq<char>, repr_hints: Seq<Seq<char>>, keys: Seq<EpserdeKey>) -> Result<
    AttrsView,
    Seq<char>,
> {
    match spec_keys(keys, keys.len()) {
        Err(e) => Err(e),
        Ok(a) => if a.is_zero_copy && !repr_hints.contains("C"@) {
            Err(spec_not_repr_c_msg(type_ident))
        } else if a.is_zero_copy && a.is_deep_copy {
            Err(spec_both_copies_msg(type_ident))
        } else {
            Ok(a)
        },
    }
}

/// Append `s` to the strings of `v`.
pub(crate) fn push_text(v: &mut Vec<String>, s: &String)
    ensures
        spec_texts(final(v)@) == spec_texts(old(v)@).push(s@),
{
    v.push(s.clone());
    assert(spec_texts(v@) =~= spec_texts(old(v)@).push(s@));
}

/// The identifiers of a parameter list, or the error for its first item that is not one.
fn parse_param_items(items: &Vec<NestedItem>) -> (r: Result<Vec<String>, String>)
    ensures
        match (r, spec_param_items(items@, items@.len())) {
            (Ok(ps), Ok(qs)) => spec_texts(ps@) == qs,
            (Err(e), Err(f)) => e@ == f,
            _ => false,
        },
{
    let mut out: Vec<String> = Vec::new();
    let mut i: usize = 0;
    assert(spec_texts(out@) =~= Seq::<Seq<char>>::empty());
    while i < items.len()
        invariant
            i <= items@.len(),
            spec_param_items(items@, i as nat) == Ok::<Seq<Seq<char>>, Seq<char>>(spec_texts(out@)),
        decreases items@.len() - i,
    {
        match &items[i] {
            NestedItem::Path(id) => push_text(&mut out, id),
            _ => {
                proof { lemma_param_items_stop(items@, (i + 1) as nat, items@.len()); }
                return Err(String::from_str("expected a type-parameter identifier"));
            },
        }
        i = i + 1;
    }
    Ok(out)
}

/// Once a parameter list fails, it fails with the same error.
proof fn lemma_param_items_stop(items: Seq<NestedItem>, i: nat, n: nat)
    requires
        i <= n <= items.len(),
        spec_param_items(items, i) is Err,
    ensures
        spec_param_items(items, n) == spec_param_items(items, i),
    decreases n - i,
{
    if i < n {
        lemma_param_items_stop(items, i, (n - 1) as nat);
    }
}

/// Once the items of a `bound(...)` list fail, they fail with the same error.
proof fn lemma_bound_items_stop(items: Seq<NestedItem>, i: nat, n: nat, acc: AttrsView)
    requires
        i <= n <= items.len(),
        spec_bound_items(items, i, acc) is Err,
    ensures
        spec_bound_items(items, n, acc) == spec_bound_items(items, i, acc),
    decreases n - i,
{
    if i < n {
        lemma_bound_items_stop(items, i, (n - 1) as nat, acc);
    }
}

/// Once the keys fail, they fail with the same error.
proof fn lemma_keys_stop(keys: Seq<EpserdeKey>, i: nat, n: nat)
    requires
        i <= n <= keys.len(),
        spec_keys(keys, i) is Err,
    ensures
        spec_keys(keys, n) == spec_keys(keys, i),
    decreases n - i,
{
    if i < n {
        lemma_keys_stop(keys, i, (n - 1) as nat);
    }
}

/// Whether the hints hold `C`.
fn has_repr_c(repr_hints: &Vec<String>) -> (r: bool)
    ensures
        r == spec_texts(repr_hints@).contains("C"@),
{
    let mut i: usize = 0;
    while i < repr_hints.len()
        invariant
            i <= repr_hints@.len(),
            forall|j: int| 0 <= j < i ==> repr_hints@[j]@ != "C"@,
        decreases repr_hints@.len() - i,
    {
        if is_named(&repr_hints[i], "C") {
            assert(spec_texts(repr_hints@)[i as int] == "C"@);
            return true;
        }
        i = i + 1;
    }
    assert(!spec_texts(repr_hints@).contains("C"@));
    false
}

/// The error for a list key given without a list.
fn needs_list_msg(name: &String) -> (r: String)
    ensures
        r@ == spec_needs_list_msg(name@),
{
    let mut m = String::from_str("\"");
    m.append(name.as_str());
    m.append("\" is a type-level attribute and requires a parenthesized list of type parameters, e.g. #[epserde(");
    m.append(name.as_str());
    m.append("(T))]");
    m
}

/// Read the items of a `bound(...)` list into `acc`.
fn apply_bound_items(acc: &mut EpserdeAttrs, items: &Vec<NestedItem>) -> (r: Result<(), String>)
    ensures
        final(acc).is_repr_c == old(acc).is_repr_c,
        match (r, spec_bound_items(items@, items@.len(), spec_attrs_view(*old(acc)))) {
            (Ok(_), Ok(v)) => spec_attrs_view(*final(acc)) == v,
            (Err(e), Err(f)) => e@ == f,
            _ => false,
        },
{
    let ghost start = spec_attrs_view(*acc);
    let mut j: usize = 0;
    while j < items.len()
        invariant
            j <= items@.len(),
            acc.is_repr_c == old(acc).is_repr_c,
            start == spec_attrs_view(*old(acc)),
            spec_bound_items(items@, j as nat, start) == Ok::<AttrsView, Seq<char>>(spec_attrs_view(*acc)),
        decreases items@.len() - j,
    {
        proof { reveal_strlit("deser"); reveal_strlit("ser"); }
        match &items[j] {
            NestedItem::NameValue(name, value) => {
                if is_named(name, "deser") {
                    push_text(&mut acc.deser_bounds, value);
                } else if is_named(name, "ser") {
                    push_text(&mut acc.ser_bounds, value);
                } else {
                    proof { lemma_bound_items_stop(items@, (j + 1) as nat, items@.len(), start); }
                    return Err(String::from_str("expected `deser` or `ser`"));
                }
            },
            NestedItem::Path(name) | NestedItem::Other(name) => {
                proof { lemma_bound_items_stop(items@, (j + 1) as nat, items@.len(), start); }
                if is_named(name, "deser") || is_named(name, "ser") {
                    return Err(String::from_str("expected `=`"));
                } else {
                    return Err(String::from_str("expected `deser` or `ser`"));
                }
            },
        }
        j = j + 1;
    }
    Ok(())
}

/// Read one key into `acc`.
fn apply_key(acc: &mut EpserdeAttrs, key: &EpserdeKey) -> (r: Result<(), String>)
    ensures
        final(acc).is_repr_c == old(acc).is_repr_c,
        match (r, spec_apply_key(spec_attrs_view(*old(acc)), *key)) {
            (Ok(_), Ok(v)) => spec_attrs_view(*final(acc)) == v,
            (Err(e), Err(f)) => e@ == f,
            _ => false,
        },
{
    proof {
        reveal_strlit("zero_copy");
        reveal_strlit("deep_copy");
        reveal_strlit("bound");
        reveal_strlit("full_copy");
        reveal_strlit("phantom");
    }
    match key {
        EpserdeKey::Path(name) => {
            if is_named(name, "zero_copy") {
                acc.is_zero_copy = true;
                Ok(())
            } else if is_named(name, "deep_copy") {
                acc.is_deep_copy = true;
                Ok(())
            } else if is_named(name, "bound") {
                Err(String::from_str("expected parentheses"))
            } else if is_named(name, "full_copy") || is_named(name, "phantom") {
                Err(needs_list_msg(name))
            } else {
                Err(String::from_str("expected \"zero_copy\", \"deep_copy\", \"bound\", \"full_copy\", or \"phantom\""))
            }
        },
        EpserdeKey::List(name, items) => {
            if is_named(name, "bound") {
                apply_bound_items(acc, items)
            } else if is_named(name, "full_copy") {
                let ps = parse_param_items(items);
                match ps {
                    Ok(ps) => {
                        append_texts(&mut acc.full_copy_params, &ps);
                        Ok(())
                    },
                    Err(e) => Err(e),
                }
            } else if is_named(name, "phantom") {
                let ps = parse_param_items(items);
                match ps {
                    Ok(ps) => {
                        append_texts(&mut acc.phantom_params, &ps);
                        Ok(())
                    },
                    Err(e) => Err(e),
                }
            } else if is_named(name, "zero_copy") || is_named(name, "deep_copy") {
                Err(String::from_str("expected `,`"))
            } else {
                Err(String::from_str("expected \"zero_copy\", \"deep_copy\", \"bound\", \"full_copy\", or \"phantom\""))
            }
        },
    }
}

/// Append the strings of `w` to `v`.
pub(crate) fn append_texts(v: &mut Vec<String>, w: &Vec<String>)
    ensures
        spec_texts(final(v)@) == spec_texts(old(v)@) + spec_texts(w@),
{
    let mut i: usize = 0;
    while i < w.len()
        invariant
            i <= w@.len(),
            spec_texts(v@) == spec_texts(old(v)@) + spec_texts(w@).take(i as int),
        decreases w@.len() - i,
    {
        push_text(v, &w[i]);
        i = i + 1;
        assert(spec_texts(w@).take(i as int) =~= spec_texts(w@).take((i - 1) as int).push(w@[i - 1]@));
    }
    assert(spec_texts(w@).take(i as int) =~= spec_texts(w@));
}

/// Parse the `#[epserde(...)]` attributes of the type `type_ident`, given its
/// representation hints (`C`, `align(16)`, ...) and its `#[epserde(...)]` keys in source
/// order.
///
/// The keys are `zero_copy`, `deep_copy`, `bound(deser = "...", ser = "...")`,
/// `full_copy(T, ...)` and `phantom(T, ...)`; the first wrong key gives its error. Then a
/// zero-copy type must be `repr(C)`, and cannot be declared deep-copy too.
pub fn parse_epserde_attrs(type_ident: &str, repr_hints: &Vec<String>, keys: &Vec<EpserdeKey>) -> (r: Result<EpserdeAttrs, String>)
    ensures
        match (r, spec_parse_attrs(type_ident@, spec_texts(repr_hints@), keys@)) {
            (Ok(a), Ok(v)) => spec_attrs_view(a) == v && a.is_repr_c == spec_texts(repr_hints@).contains("C"@),
            (Err(e), Err(f)) => e@ == f,
            _ => false,
        },
{
    let is_repr_c = has_repr_c(repr_hints);
    let mut acc = EpserdeAttrs {
        is_repr_c,
        is_zero_copy: false,
        is_deep_copy: false,
        deser_bounds: Vec::new(),
        ser_bounds: Vec::new(),
        full_copy_params: Vec::new(),
        phantom_params: Vec::new(),
    };
    assert(spec_texts(acc.deser_bounds@) =~= Seq::<Seq<char>>::empty());
    assert(spec_texts(acc.ser_bounds@) =~= Seq::<Seq<char>>::empty());
    assert(spec_texts(acc.full_copy_params@) =~= Seq::<Seq<char>>::empty());
    assert(spec_texts(acc.phantom_params@) =~= Seq::<Seq<char>>::empty());
    assert(spec_attrs_view(acc) == spec_no_attrs());
    let mut i: usize = 0;
    while i < keys.len()
        invariant
            i <= keys@.len(),
            acc.is_repr_c == is_repr_c,
            is_repr_c == spec_texts(repr_hints@).contains("C"@),
            spec_keys(keys@, i as nat) == Ok::<AttrsView, Seq<char>>(spec_attrs_view(acc)),
        decreases keys@.len() - i,
    {
        match apply_key(&mut acc, &keys[i]) {
            Ok(()) => {},
            Err(e) => {
                proof { lemma_keys_stop(keys@, (i + 1) as nat, keys@.len()); }
                return Err(e);
            },
        }
        i = i + 1;
    }
    if acc.is_zero_copy && !acc.is_repr_c {
        let mut m = String::from_str("Type ");
        m.append(type_ident);
        m.append(" is declared as zero-copy, but it is not repr(C)");
        return Err(m);
    }
    if acc.is_zero_copy && acc.is_deep_copy {
        let mut m = String::from_str("Type ");
        m.append(type_ident);
        m.append(" is declared as both zero-copy and deep-copy");
        return Err(m);
    }
    Ok(acc)
}

} // verus!
