use vstd::prelude::*;
use vstd::std_specs::cmp::PartialEqSpec;

use crate::instantiate::{
    arg_idents, arg_tokens, classify, dollar_prefixed, invoke_link_name, is_impl_key_of,
    ret_token, unique_keys, ImplKey, KeyView,
};
use crate::registry::token_of;
use crate::syntax::{ident_of, Type};

verus! {

/// A name that may stand as one token of a linkage name: not empty, and
/// free of the delimiter `$`.
pub open spec fn token_ok(s: Seq<char>) -> bool {
    s.len() > 0 && !s.contains('$')
}

/// The registry gives every well-formed name a well-formed token, and no
/// two well-formed names the same token.
pub open spec fn tokens_unambiguous(reg: Seq<(Seq<char>, Seq<char>)>) -> bool {
    &&& forall|a: Seq<char>| token_ok(a) ==> token_ok(#[trigger] token_of(reg, a))
    &&& forall|a: Seq<char>, b: Seq<char>|
        token_ok(a) && token_ok(b) && #[trigger] token_of(reg, a) == #[trigger] token_of(reg, b)
            ==> a == b
}

/// Every name in a function key is well formed.
pub open spec fn key_names_ok(k: (Option<Seq<char>>, Seq<Seq<char>>)) -> bool {
    &&& (k.0 matches Some(r) ==> token_ok(r))
    &&& forall|i: int| 0 <= i < k.1.len() ==> token_ok(#[trigger] k.1[i])
}

/// Two declarations agree on every name that classification reads: the same
/// wrapper around the same name, or function types with the same bare return
/// name and the same bare names at each argument position. Positions and
/// angle brackets may differ.
pub open spec fn same_names_read(a: Type, b: Type) -> bool {
    match (a, b) {
        (Type::RustBox(x), Type::RustBox(y)) => ident_of(x.inner) == ident_of(y.inner),
        (Type::RustVec(x), Type::RustVec(y)) => ident_of(x.inner) == ident_of(y.inner),
        (Type::UniquePtr(x), Type::UniquePtr(y)) => ident_of(x.inner) == ident_of(y.inner),
        (Type::SharedPtr(x), Type::SharedPtr(y)) => ident_of(x.inner) == ident_of(y.inner),
        (Type::WeakPtr(x), Type::WeakPtr(y)) => ident_of(x.inner) == ident_of(y.inner),
        (Type::CxxVector(x), Type::CxxVector(y)) => ident_of(x.inner) == ident_of(y.inner),
        (Type::CxxFunction(x), Type::CxxFunction(y)) => match (x.inner, y.inner) {
            (Type::Fn(s), Type::Fn(u)) => {
                &&& match (s.ret, u.ret) {
                    (Some(p), Some(q)) => ident_of(p) == ident_of(q),
                    (None, None) => true,
                    _ => false,
                }
                &&& s.args@.len() == u.args@.len()
                &&& forall|i: int|
                    0 <= i < s.args@.len() ==> ident_of(#[trigger] s.args@[i]) == ident_of(
                        u.args@[i],
                    )
            },
            _ => false,
        },
        _ => false,
    }
}

/// Classifying one type twice gives keys that compare equal.
pub proof fn lemma_classification_repeatable(t: Type, r1: Option<ImplKey>, r2: Option<ImplKey>)
    requires
        is_impl_key_of(t, r1),
        is_impl_key_of(t, r2),
    ensures
        r1 is Some <==> r2 is Some,
        r1 matches Some(k1) ==> r2 matches Some(k2) && k1.eq_spec(&k2),
{
}

proof fn lemma_arg_idents_same(a: Seq<Type>, b: Seq<Type>)
    requires
        a.len() == b.len(),
        forall|i: int| 0 <= i < a.len() ==> ident_of(#[trigger] a[i]) == ident_of(b[i]),
    ensures
        arg_idents(a) == arg_idents(b),
    decreases a.len(),
{
    if a.len() > 0 {
        assert(a.drop_last().len() == b.drop_last().len());
        assert forall|i: int| 0 <= i < a.drop_last().len() implies ident_of(
            #[trigger] a.drop_last()[i],
        ) == ident_of(b.drop_last()[i]) by {
            assert(a.drop_last()[i] == a[i]);
            assert(b.drop_last()[i] == b[i]);
        }
        lemma_arg_idents_same(a.drop_last(), b.drop_last());
        assert(ident_of(a.last()) == ident_of(b.last()));
    }
}

/// Declarations that differ only in where they stand and in their
/// punctuation (more generally: that agree on every name that classification
/// reads) require the same instantiation.
pub proof fn lemma_layout_does_not_matter(a: Type, b: Type)
    requires
        same_names_read(a, b),
    ensures
        classify(a) == classify(b),
{
    match (a, b) {
        (Type::CxxFunction(x), Type::CxxFunction(y)) => {
            match (x.inner, y.inner) {
                (Type::Fn(s), Type::Fn(u)) => {
                    lemma_arg_idents_same(s.args@, u.args@);
                },
                _ => {},
            }
        },
        _ => {},
    }
}

/// The list of distinct identities holds each identity once, and holds
/// exactly the identities that some declaration requires.
pub proof fn lemma_unique_keys_exact(ts: Seq<Type>)
    ensures
        unique_keys(ts).no_duplicates(),
        forall|k: KeyView| #[trigger]
            unique_keys(ts).contains(k) <==> exists|i: int|
                0 <= i < ts.len() && classify(#[trigger] ts[i]) == Some(k),
    decreases ts.len(),
{
    if ts.len() > 0 {
        let init = ts.drop_last();
        lemma_unique_keys_exact(init);
        assert forall|k: KeyView| #[trigger]
            unique_keys(ts).contains(k) <==> exists|i: int|
                0 <= i < ts.len() && classify(#[trigger] ts[i]) == Some(k) by {
            if unique_keys(ts).contains(k) {
                if unique_keys(init).contains(k) {
                    let i = choose|i: int| 0 <= i < init.len() && classify(#[trigger] init[i]) == Some(k);
                    assert(ts[i] == init[i]);
                } else {
                    assert(classify(ts[ts.len() - 1]) == Some(k));
                }
            }
            if exists|i: int| 0 <= i < ts.len() && classify(#[trigger] ts[i]) == Some(k) {
                let i = choose|i: int| 0 <= i < ts.len() && classify(#[trigger] ts[i]) == Some(k);
                if i < ts.len() - 1 {
                    assert(init[i] == ts[i]);
                    assert(unique_keys(init).contains(k));
                    let j = unique_keys(init).index_of(k);
                    if let Some(l) = classify(ts.last()) {
                        if !unique_keys(init).contains(l) {
                            assert(unique_keys(init).push(l)[j] == k);
                        }
                    }
                } else {
                    if !unique_keys(init).contains(k) {
                        assert(unique_keys(init).push(k)[unique_keys(init).len() as int] == k);
                    }
                }
            }
        }
    }
}

/// The linkage name depends on the key's identity and the registry alone:
/// keys that compare equal, under one registry, get the same name.
pub proof fn lemma_link_name_deterministic(
    reg: Seq<(Seq<char>, Seq<char>)>,
    k1: (Option<Seq<char>>, Seq<Seq<char>>),
    k2: (Option<Seq<char>>, Seq<Seq<char>>),
)
    requires
        k1 == k2,
    ensures
        invoke_link_name(reg, k1) == invoke_link_name(reg, k2),
{
}

proof fn lemma_split_at_last_dollar(x1: Seq<char>, t1: Seq<char>, x2: Seq<char>, t2: Seq<char>)
    requires
        x1 + "$"@ + t1 == x2 + "$"@ + t2,
        !t1.contains('$'),
        !t2.contains('$'),
    ensures
        x1 == x2,
        t1 == t2,
{
    reveal_strlit("$");
    let s = x1 + "$"@ + t1;
    assert(s.len() == x1.len() + 1 + t1.len());
    assert(s.len() == x2.len() + 1 + t2.len());
    if t1.len() < t2.len() {
        let p = x1.len() as int;
        assert(s[p] == '$');
        assert(s[p] == t2[p - x2.len() - 1]);
        assert(t2.contains('$'));
    } else if t2.len() < t1.len() {
        let p = x2.len() as int;
        assert(s[p] == '$');
        assert(s[p] == t1[p - x1.len() - 1]);
        assert(t1.contains('$'));
    }
    assert(x1 =~= s.subrange(0, x1.len() as int));
    assert(x2 =~= s.subrange(0, x2.len() as int));
    assert(t1 =~= s.subrange(s.len() - t1.len(), s.len() as int));
    assert(t2 =~= s.subrange(s.len() - t2.len(), s.len() as int));
}

proof fn lemma_dollar_prefixed_has_dollar(ts: Seq<Seq<char>>)
    requires
        ts.len() > 0,
    ensures
        dollar_prefixed(ts).contains('$'),
{
    reveal_strlit("$");
    let init = dollar_prefixed(ts.drop_last());
    assert((init + "$"@ + ts.last())[init.len() as int] == '$');
}

proof fn lemma_joined_injective(r1: Seq<char>, ts1: Seq<Seq<char>>, r2: Seq<char>, ts2: Seq<Seq<char>>)
    requires
        r1 + dollar_prefixed(ts1) == r2 + dollar_prefixed(ts2),
        !r1.contains('$'),
        !r2.contains('$'),
        forall|i: int| 0 <= i < ts1.len() ==> !(#[trigger] ts1[i]).contains('$'),
        forall|i: int| 0 <= i < ts2.len() ==> !(#[trigger] ts2[i]).contains('$'),
    ensures
        r1 == r2,
        ts1 == ts2,
    decreases ts1.len() + ts2.len(),
{
    if ts1.len() > 0 && ts2.len() > 0 {
        let x1 = r1 + dollar_prefixed(ts1.drop_last());
        let x2 = r2 + dollar_prefixed(ts2.drop_last());
        assert(r1 + dollar_prefixed(ts1) =~= x1 + "$"@ + ts1.last());
        assert(r2 + dollar_prefixed(ts2) =~= x2 + "$"@ + ts2.last());
        assert(!ts1.last().contains('$'));
        assert(!ts2.last().contains('$'));
        lemma_split_at_last_dollar(x1, ts1.last(), x2, ts2.last());
        assert forall|i: int| 0 <= i < ts1.drop_last().len() implies !(
        #[trigger] ts1.drop_last()[i]).contains('$') by {
            assert(ts1.drop_last()[i] == ts1[i]);
        }
        assert forall|i: int| 0 <= i < ts2.drop_last().len() implies !(
        #[trigger] ts2.drop_last()[i]).contains('$') by {
            assert(ts2.drop_last()[i] == ts2[i]);
        }
        lemma_joined_injective(r1, ts1.drop_last(), r2, ts2.drop_last());
        assert(ts1 =~= ts1.drop_last().push(ts1.last()));
        assert(ts2 =~= ts2.drop_last().push(ts2.last()));
    } else if ts1.len() > 0 {
        lemma_dollar_prefixed_has_dollar(ts1);
        let d = dollar_prefixed(ts1);
        let j = choose|j: int| 0 <= j < d.len() && d[j] == '$';
        assert((r1 + d)[r1.len() + j] == '$');
        assert(r2 + dollar_prefixed(ts2) =~= r2);
        assert(r2[r1.len() + j] == '$');
        assert(r2.contains('$'));
    } else if ts2.len() > 0 {
        lemma_dollar_prefixed_has_dollar(ts2);
        let d = dollar_prefixed(ts2);
        let j = choose|j: int| 0 <= j < d.len() && d[j] == '$';
        assert((r2 + d)[r2.len() + j] == '$');
        assert(r1 + dollar_prefixed(ts1) =~= r1);
        assert(r1[r2.len() + j] == '$');
        assert(r1.contains('$'));
    } else {
        assert(r1 =~= r1 + dollar_prefixed(ts1));
        assert(r2 =~= r2 + dollar_prefixed(ts2));
    }
}

/// Distinct function keys get distinct linkage names, provided that their
/// names are well formed and the registry's tokens are unambiguous.
pub proof fn lemma_link_names_distinct(
    reg: Seq<(Seq<char>, Seq<char>)>,
    k1: (Option<Seq<char>>, Seq<Seq<char>>),
    k2: (Option<Seq<char>>, Seq<Seq<char>>),
)
    requires
        tokens_unambiguous(reg),
        key_names_ok(k1),
        key_names_ok(k2),
        k1 != k2,
    ensures
        invoke_link_name(reg, k1) != invoke_link_name(reg, k2),
{
    let p = "cxxbridge1$std$function$"@;
    let q = "$invoke"@;
    let r1 = ret_token(reg, k1.0);
    let r2 = ret_token(reg, k2.0);
    let a1 = arg_tokens(reg, k1.1);
    let a2 = arg_tokens(reg, k2.1);
    let m1 = r1 + dollar_prefixed(a1);
    let m2 = r2 + dollar_prefixed(a2);
    if invoke_link_name(reg, k1) == invoke_link_name(reg, k2) {
        let n = invoke_link_name(reg, k1);
        assert(n =~= p + m1 + q);
        assert(invoke_link_name(reg, k2) =~= p + m2 + q);
        assert(m1 =~= n.subrange(p.len() as int, n.len() - q.len()));
        assert(m2 =~= n.subrange(p.len() as int, n.len() - q.len()));
        if let Some(x) = k1.0 {
            assert(token_ok(token_of(reg, x)));
        }
        if let Some(x) = k2.0 {
            assert(token_ok(token_of(reg, x)));
        }
        assert forall|i: int| 0 <= i < a1.len() implies !(#[trigger] a1[i]).contains('$') by {
            assert(token_ok(k1.1[i]));
            assert(token_ok(token_of(reg, k1.1[i])));
        }
        assert forall|i: int| 0 <= i < a2.len() implies !(#[trigger] a2[i]).contains('$') by {
            assert(token_ok(k2.1[i]));
            assert(token_ok(token_of(reg, k2.1[i])));
        }
        lemma_joined_injective(r1, a1, r2, a2);
        match (k1.0, k2.0) {
            (Some(x), Some(y)) => {
                assert(token_ok(token_of(reg, x)));
                assert(x == y);
            },
            (Some(x), None) => {
                assert(token_ok(token_of(reg, x)));
            },
            (None, Some(y)) => {
                assert(token_ok(token_of(reg, y)));
            },
            (None, None) => {},
        }
        assert(k1.1.len() == k2.1.len());
        assert forall|i: int| 0 <= i < k1.1.len() implies k1.1[i] == k2.1[i] by {
            assert(a1[i] == a2[i]);
            assert(token_ok(k1.1[i]));
            assert(token_ok(k2.1[i]));
        }
        assert(k1.1 =~= k2.1);
        assert(k1 == k2);
    }
}

} // verus!
