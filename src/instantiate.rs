use vstd::prelude::*;
use vstd::string::*;

use crate::registry::{token_of, Types};
use crate::syntax::{ident_of, Loc, NamedType, Ty1, Type};

verus! {

/// The identity of an instantiation: what deduplication compares.
pub enum KeyView {
    RustBox(Seq<char>),
    RustVec(Seq<char>),
    UniquePtr(Seq<char>),
    SharedPtr(Seq<char>),
    WeakPtr(Seq<char>),
    CxxVector(Seq<char>),
    CxxFunction(Option<Seq<char>>, Seq<Seq<char>>),
}

/// The key of a wrapper around a named type. Only the name takes part in
/// equality; the positions and angle brackets serve diagnostics.
pub struct NamedImplKey {
    pub begin_span: Loc,
    pub rust: String,
    pub lt_token: Option<Loc>,
    pub gt_token: Option<Loc>,
    pub end_span: Loc,
}

/// The key of a function type: the name of its return type, if that is a
/// bare name, and the names of those arguments that are bare names.
pub struct FunctionImplKey<'a> {
    pub ret: Option<String>,
    pub args: Vec<String>,
    pub ty: &'a Type,
}

/// The instantiation that one declared type requires.
#[derive(Hash)]
pub enum ImplKey<'a> {
    RustBox(NamedImplKey),
    RustVec(NamedImplKey),
    UniquePtr(NamedImplKey),
    SharedPtr(NamedImplKey),
    WeakPtr(NamedImplKey),
    CxxVector(NamedImplKey),
    CxxFunction(FunctionImplKey<'a>),
}

impl View for NamedImplKey {
    type V = Seq<char>;

    open spec fn view(&self) -> Seq<char> {
        self.rust@
    }
}

impl<'a> View for FunctionImplKey<'a> {
    type V = (Option<Seq<char>>, Seq<Seq<char>>);

    open spec fn view(&self) -> (Option<Seq<char>>, Seq<Seq<char>>) {
        (
            match self.ret {
                Some(r) => Some(r@),
                None => None,
            },
            self.args@.map_values(|a: String| a@),
        )
    }
}

impl<'a> View for ImplKey<'a> {
    type V = KeyView;

    open spec fn view(&self) -> KeyView {
        match self {
            ImplKey::RustBox(k) => KeyView::RustBox(k@),
            ImplKey::RustVec(k) => KeyView::RustVec(k@),
            ImplKey::UniquePtr(k) => KeyView::UniquePtr(k@),
            ImplKey::SharedPtr(k) => KeyView::SharedPtr(k@),
            ImplKey::WeakPtr(k) => KeyView::WeakPtr(k@),
            ImplKey::CxxVector(k) => KeyView::CxxVector(k@),
            ImplKey::CxxFunction(f) => KeyView::CxxFunction(f@.0, f@.1),
        }
    }
}

/// The names of the arguments that are bare names, in order.
pub open spec fn arg_idents(args: Seq<Type>) -> Seq<Seq<char>>
    decreases args.len(),
{
    if args.len() == 0 {
        Seq::empty()
    } else {
        let rest = arg_idents(args.drop_last());
        match ident_of(args.last()) {
            Some(name) => rest.push(name),
            None => rest,
        }
    }
}

/// The identity of the instantiation that a type requires, if any.
pub open spec fn classify(t: Type) -> Option<KeyView> {
    match t {
        Type::RustBox(ty) => match ident_of(ty.inner) {
            Some(name) => Some(KeyView::RustBox(name)),
            None => None,
        },
        Type::RustVec(ty) => match ident_of(ty.inner) {
            Some(name) => Some(KeyView::RustVec(name)),
            None => None,
        },
        Type::UniquePtr(ty) => match ident_of(ty.inner) {
            Some(name) => Some(KeyView::UniquePtr(name)),
            None => None,
        },
        Type::SharedPtr(ty) => match ident_of(ty.inner) {
            Some(name) => Some(KeyView::SharedPtr(name)),
            None => None,
        },
        Type::WeakPtr(ty) => match ident_of(ty.inner) {
            Some(name) => Some(KeyView::WeakPtr(name)),
            None => None,
        },
        Type::CxxVector(ty) => match ident_of(ty.inner) {
            Some(name) => Some(KeyView::CxxVector(name)),
            None => None,
        },
        Type::CxxFunction(ty) => match ty.inner {
            Type::Fn(sig) => match sig.ret {
                Some(ret) => match ident_of(ret) {
                    Some(name) => Some(KeyView::CxxFunction(Some(name), arg_idents(sig.args@))),
                    None => None,
                },
                None => Some(KeyView::CxxFunction(None, arg_idents(sig.args@))),
            },
            _ => None,
        },
        _ => None,
    }
}

/// A named key records the wrapper's name and closing bracket and the inner
/// name's brackets.
pub open spec fn named_key_from(outer: Ty1, k: NamedImplKey) -> bool {
    match outer.inner {
        Type::Ident(inner) => {
            &&& k.begin_span == outer.name_span
            &&& k.rust@ == inner.rust@
            &&& k.lt_token == inner.lt_token
            &&& k.gt_token == inner.gt_token
            &&& k.end_span == outer.rangle
        },
        _ => false,
    }
}

/// Besides its identity, a key carries the positions of its declaration,
/// or for a function the declared type itself.
pub open spec fn key_built_from(t: Type, k: ImplKey) -> bool {
    match (t, k) {
        (Type::RustBox(ty), ImplKey::RustBox(n)) => named_key_from(*ty, n),
        (Type::RustVec(ty), ImplKey::RustVec(n)) => named_key_from(*ty, n),
        (Type::UniquePtr(ty), ImplKey::UniquePtr(n)) => named_key_from(*ty, n),
        (Type::SharedPtr(ty), ImplKey::SharedPtr(n)) => named_key_from(*ty, n),
        (Type::WeakPtr(ty), ImplKey::WeakPtr(n)) => named_key_from(*ty, n),
        (Type::CxxVector(ty), ImplKey::CxxVector(n)) => named_key_from(*ty, n),
        (Type::CxxFunction(_), ImplKey::CxxFunction(f)) => *f.ty == t,
        _ => false,
    }
}

/// What `Type::impl_key` returns for `t`.
pub open spec fn is_impl_key_of(t: Type, r: Option<ImplKey>) -> bool {
    match r {
        Some(k) => classify(t) == Some(k@) && key_built_from(t, k),
        None => classify(t) is None,
    }
}

impl PartialEq for NamedImplKey {
    fn eq(&self, other: &Self) -> (r: bool) {
        self.rust == other.rust
    }
}

impl vstd::std_specs::cmp::PartialEqSpecImpl for NamedImplKey {
    open spec fn obeys_eq_spec() -> bool {
        true
    }

    open spec fn eq_spec(&self, other: &NamedImplKey) -> bool {
        self@ == other@
    }
}

impl Eq for NamedImplKey {}

impl core::hash::Hash for NamedImplKey {
    /// Relies on `String`'s `Hash`: only the name is hashed, as only the
    /// name takes part in equality.
    #[verifier::external_body]
    fn hash<H: core::hash::Hasher>(&self, state: &mut H) {
        self.rust.hash(state);
    }
}

/// Whether two lists of names are equal, name by name.
fn same_names(a: &Vec<String>, b: &Vec<String>) -> (r: bool)
    ensures
        r == (a@.map_values(|s: String| s@) == b@.map_values(|s: String| s@)),
{
    if a.len() != b.len() {
        assert(a@.map_values(|s: String| s@).len() != b@.map_values(|s: String| s@).len());
        return false;
    }
    let mut i: usize = 0;
    while i < a.len()
        invariant
            0 <= i <= a@.len(),
            a@.len() == b@.len(),
            forall|j: int| 0 <= j < i ==> a@[j]@ == b@[j]@,
        decreases a.len() - i,
    {
        if a[i] != b[i] {
            assert(a@.map_values(|s: String| s@)[i as int] != b@.map_values(|s: String| s@)[i as int]);
            return false;
        }
        i += 1;
    }
    assert(a@.map_values(|s: String| s@) =~= b@.map_values(|s: String| s@));
    true
}

impl<'a> PartialEq for FunctionImplKey<'a> {
    fn eq(&self, other: &Self) -> (r: bool) {
        let same_ret = match (&self.ret, &other.ret) {
            (Some(a), Some(b)) => *a == *b,
            (None, None) => true,
            _ => false,
        };
        same_ret && same_names(&self.args, &other.args)
    }
}

impl<'a> vstd::std_specs::cmp::PartialEqSpecImpl for FunctionImplKey<'a> {
    open spec fn obeys_eq_spec() -> bool {
        true
    }

    open spec fn eq_spec(&self, other: &FunctionImplKey<'a>) -> bool {
        self@ == other@
    }
}

impl<'a> Eq for FunctionImplKey<'a> {}

impl<'a> core::hash::Hash for FunctionImplKey<'a> {
    /// Relies on `Hash` of a pair of `Option<String>` and `Vec<String>`: the
    /// return name and the argument names are hashed, the declared type is not.
    #[verifier::external_body]
    fn hash<H: core::hash::Hasher>(&self, state: &mut H) {
        (&self.ret, &self.args).hash(state);
    }
}

impl<'a> PartialEq for ImplKey<'a> {
    fn eq(&self, other: &Self) -> (r: bool) {
        match (self, other) {
            (ImplKey::RustBox(a), ImplKey::RustBox(b)) => a.eq(b),
            (ImplKey::RustVec(a), ImplKey::RustVec(b)) => a.eq(b),
            (ImplKey::UniquePtr(a), ImplKey::UniquePtr(b)) => a.eq(b),
            (ImplKey::SharedPtr(a), ImplKey::SharedPtr(b)) => a.eq(b),
            (ImplKey::WeakPtr(a), ImplKey::WeakPtr(b)) => a.eq(b),
            (ImplKey::CxxVector(a), ImplKey::CxxVector(b)) => a.eq(b),
            (ImplKey::CxxFunction(a), ImplKey::CxxFunction(b)) => a.eq(b),
            _ => false,
        }
    }
}

impl<'a> vstd::std_specs::cmp::PartialEqSpecImpl for ImplKey<'a> {
    open spec fn obeys_eq_spec() -> bool {
        true
    }

    open spec fn eq_spec(&self, other: &ImplKey<'a>) -> bool {
        self@ == other@
    }
}

impl<'a> Eq for ImplKey<'a> {}

/// The tokens in order, each after a `$`.
pub open spec fn dollar_prefixed(ts: Seq<Seq<char>>) -> Seq<char>
    decreases ts.len(),
{
    if ts.len() == 0 {
        Seq::empty()
    } else {
        dollar_prefixed(ts.drop_last()) + "$"@ + ts.last()
    }
}

/// The token of a return type; empty where there is none.
pub open spec fn ret_token(reg: Seq<(Seq<char>, Seq<char>)>, ret: Option<Seq<char>>) -> Seq<char> {
    match ret {
        Some(name) => token_of(reg, name),
        None => Seq::empty(),
    }
}

/// The tokens of the argument names, in order.
pub open spec fn arg_tokens(reg: Seq<(Seq<char>, Seq<char>)>, args: Seq<Seq<char>>) -> Seq<
    Seq<char>,
> {
    args.map_values(|a: Seq<char>| token_of(reg, a))
}

/// The linkage name of the call operation of a function instantiation.
pub open spec fn invoke_link_name(
    reg: Seq<(Seq<char>, Seq<char>)>,
    key: (Option<Seq<char>>, Seq<Seq<char>>),
) -> Seq<char> {
    "cxxbridge1$std$function$"@ + ret_token(reg, key.0) + dollar_prefixed(arg_tokens(reg, key.1))
        + "$invoke"@
}

impl NamedImplKey {
    fn new(outer: &Ty1, inner: &NamedType) -> (k: NamedImplKey)
        ensures
            k.begin_span == outer.name_span,
            k.rust@ == inner.rust@,
            k.lt_token == inner.lt_token,
            k.gt_token == inner.gt_token,
            k.end_span == outer.rangle,
    {
        NamedImplKey {
            begin_span: outer.name_span,
            rust: inner.rust.clone(),
            lt_token: inner.lt_token,
            gt_token: inner.gt_token,
            end_span: outer.rangle,
        }
    }
}

/// The key of a wrapper whose parameter must be a bare name.
fn named_key(ty: &Ty1) -> (r: Option<NamedImplKey>)
    ensures
        match r {
            Some(k) => named_key_from(*ty, k),
            None => ident_of(ty.inner) is None,
        },
{
    match &ty.inner {
        Type::Ident(ident) => Some(NamedImplKey::new(ty, ident)),
        _ => None,
    }
}

/// The names of the arguments that are bare names, in order.
fn collect_arg_idents(args: &Vec<Type>) -> (r: Vec<String>)
    ensures
        r@.map_values(|a: String| a@) == arg_idents(args@),
{
    let mut r: Vec<String> = Vec::new();
    let mut i: usize = 0;
    while i < args.len()
        invariant
            0 <= i <= args@.len(),
            r@.map_values(|a: String| a@) == arg_idents(args@.take(i as int)),
        decreases args.len() - i,
    {
        assert(args@.take(i + 1).drop_last() =~= args@.take(i as int));
        assert(args@.take(i + 1).last() == args@[i as int]);
        if let Type::Ident(a) = &args[i] {
            r.push(a.rust.clone());
            assert(r@.map_values(|a: String| a@) =~= arg_idents(args@.take(i as int)).push(a.rust@));
        }
        i += 1;
    }
    assert(args@.take(args@.len() as int) =~= args@);
    r
}

impl<'a> FunctionImplKey<'a> {
    fn new(ty: &'a Type, ret: Option<String>, args: Vec<String>) -> (k: FunctionImplKey<'a>)
        ensures
            k.ty == ty,
            k.ret == ret,
            k.args == args,
    {
        FunctionImplKey { ret, args, ty }
    }

    /// The linkage name under which both sides of the boundary agree to
    /// find the call operation of this function instantiation.
    pub fn link_name_invoke(&self, types: &Types) -> (r: String)
        ensures
            r@ == invoke_link_name(types@, self@),
    {
        let ret_str = match &self.ret {
            Some(ret) => types.token(ret),
            None => String::new(),
        };
        let mut prefix = String::from_str("cxxbridge1$std$function$");
        prefix.append(ret_str.as_str());
        let ghost toks = arg_tokens(types@, self@.1);
        let mut i: usize = 0;
        while i < self.args.len()
            invariant
                0 <= i <= self.args@.len(),
                toks.len() == self.args@.len(),
                toks == arg_tokens(types@, self@.1),
                prefix@ == "cxxbridge1$std$function$"@ + ret_token(types@, self@.0)
                    + dollar_prefixed(toks.take(i as int)),
            decreases self.args.len() - i,
        {
            let tok = types.token(&self.args[i]);
            prefix.append("$");
            prefix.append(tok.as_str());
            proof {
                assert(toks.take(i + 1).drop_last() =~= toks.take(i as int));
                assert(toks[i as int] == tok@);
                assert(prefix@ =~= "cxxbridge1$std$function$"@ + ret_token(types@, self@.0)
                    + dollar_prefixed(toks.take(i + 1)));
            }
            i += 1;
        }
        assert(toks.take(toks.len() as int) =~= toks);
        prefix.append("$invoke");
        prefix
    }
}

impl Type {
    /// The instantiation that this type requires, or `None` where it
    /// requires none or its shape is not supported.
    pub fn impl_key(&self) -> (r: Option<ImplKey<'_>>)
        ensures
            is_impl_key_of(*self, r),
    {
        match self {
            Type::RustBox(ty) => match named_key(ty) {
                Some(k) => Some(ImplKey::RustBox(k)),
                None => None,
            },
            Type::RustVec(ty) => match named_key(ty) {
                Some(k) => Some(ImplKey::RustVec(k)),
                None => None,
            },
            Type::UniquePtr(ty) => match named_key(ty) {
                Some(k) => Some(ImplKey::UniquePtr(k)),
                None => None,
            },
            Type::SharedPtr(ty) => match named_key(ty) {
                Some(k) => Some(ImplKey::SharedPtr(k)),
                None => None,
            },
            Type::WeakPtr(ty) => match named_key(ty) {
                Some(k) => Some(ImplKey::WeakPtr(k)),
                None => None,
            },
            Type::CxxVector(ty) => match named_key(ty) {
                Some(k) => Some(ImplKey::CxxVector(k)),
                None => None,
            },
            Type::CxxFunction(ty) => {
                if let Type::Fn(sig) = &ty.inner {
                    let ret = match &sig.ret {
                        Some(Type::Ident(ret_id)) => Some(ret_id.rust.clone()),
                        Some(_) => return None,
                        None => None,
                    };
                    let args = collect_arg_idents(&sig.args);
                    Some(ImplKey::CxxFunction(FunctionImplKey::new(self, ret, args)))
                } else {
                    None
                }
            },
            _ => None,
        }
    }
}

/// The distinct identities that a list of declarations requires, in the
/// order in which each first appears.
pub open spec fn unique_keys(ts: Seq<Type>) -> Seq<KeyView>
    decreases ts.len(),
{
    if ts.len() == 0 {
        Seq::empty()
    } else {
        let rest = unique_keys(ts.drop_last());
        match classify(ts.last()) {
            Some(k) => if rest.contains(k) {
                rest
            } else {
                rest.push(k)
            },
            None => rest,
        }
    }
}

/// Whether `k` was built from one of the declarations `ts`.
pub open spec fn key_from_some(ts: Seq<Type>, k: ImplKey) -> bool {
    exists|i: int| 0 <= i < ts.len() && key_built_from(ts[i], k)
}

/// Whether a key with the identity of `k` is among `keys`.
fn contains_key(keys: &Vec<ImplKey<'_>>, k: &ImplKey<'_>) -> (r: bool)
    ensures
        r == keys@.map_values(|x: ImplKey| x@).contains(k@),
{
    let ghost views = keys@.map_values(|x: ImplKey| x@);
    let mut j: usize = 0;
    while j < keys.len()
        invariant
            0 <= j <= keys@.len(),
            views == keys@.map_values(|x: ImplKey| x@),
            forall|m: int| 0 <= m < j ==> views[m] != k@,
        decreases keys.len() - j,
    {
        if keys[j].eq(k) {
            assert(views[j as int] == k@);
            return true;
        }
        j += 1;
    }
    false
}

/// The instantiations that a list of declarations requires, each once,
/// in the order in which each is first required. Each key is the one built
/// from the declaration that first required it.
pub fn collect_impl_keys<'a>(types: &'a Vec<Type>) -> (r: Vec<ImplKey<'a>>)
    ensures
        r@.map_values(|k: ImplKey| k@) == unique_keys(types@),
        forall|j: int| 0 <= j < r@.len() ==> key_from_some(types@, #[trigger] r@[j]),
{
    let mut r: Vec<ImplKey<'a>> = Vec::new();
    let ghost mut origin: Seq<int> = Seq::empty();
    let mut i: usize = 0;
    while i < types.len()
        invariant
            0 <= i <= types@.len(),
            r@.map_values(|k: ImplKey| k@) == unique_keys(types@.take(i as int)),
            origin.len() == r@.len(),
            forall|j: int|
                0 <= j < r@.len() ==> 0 <= #[trigger] origin[j] < i && key_built_from(
                    types@[origin[j]],
                    r@[j],
                ),
        decreases types.len() - i,
    {
        assert(types@.take(i + 1).drop_last() =~= types@.take(i as int));
        assert(types@.take(i + 1).last() == types@[i as int]);
        let t: &'a Type = &types[i];
        match t.impl_key() {
            Some(k) => {
                if !contains_key(&r, &k) {
                    let ghost old_r = r@;
                    r.push(k);
                    proof {
                        origin = origin.push(i as int);
                    }
                    assert(r@.map_values(|k: ImplKey| k@) =~= old_r.map_values(
                        |k: ImplKey| k@,
                    ).push(k@));
                    assert forall|j: int| 0 <= j < r@.len() implies 0 <= #[trigger] origin[j] < i
                        + 1 && key_built_from(types@[origin[j]], r@[j]) by {
                        if j < old_r.len() {
                            assert(r@[j] == old_r[j]);
                        }
                    }
                }
            },
            None => {},
        }
        i += 1;
    }
    assert(types@.take(types@.len() as int) =~= types@);
    assert forall|j: int| 0 <= j < r@.len() implies key_from_some(types@, #[trigger] r@[j]) by {
        assert(key_built_from(types@[origin[j]], r@[j]));
    }
    r
}

} // verus!
