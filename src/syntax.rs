use vstd::prelude::*;

verus! {

/// A place in the source text, kept for diagnostics only.
#[derive(Clone, Copy, Debug, PartialEq, Eq, Structural)]
pub struct Loc {
    pub line: usize,
    pub column: usize,
}

/// A named type as written: its identifier, and the angle brackets of its
/// generic argument list where it has one.
pub struct NamedType {
    pub rust: String,
    pub span: Loc,
    pub lt_token: Option<Loc>,
    pub gt_token: Option<Loc>,
}

/// A built-in wrapper with one type parameter, such as `Box<T>`.
pub struct Ty1 {
    pub name: String,
    pub name_span: Loc,
    pub langle: Loc,
    pub inner: Type,
    pub rangle: Loc,
}

/// A function signature: the argument types in order and the return type.
pub struct Signature {
    pub args: Vec<Type>,
    pub ret: Option<Type>,
}

/// A declared type of the bridge definition.
pub enum Type {
    Ident(NamedType),
    RustBox(Box<Ty1>),
    RustVec(Box<Ty1>),
    UniquePtr(Box<Ty1>),
    SharedPtr(Box<Ty1>),
    WeakPtr(Box<Ty1>),
    CxxVector(Box<Ty1>),
    CxxFunction(Box<Ty1>),
    Ref(Box<Type>),
    Ptr(Box<Type>),
    Fn(Box<Signature>),
    Str(Loc),
    Void(Loc),
}

/// The identifier of a type that is a bare name, if it is one.
pub open spec fn ident_of(t: Type) -> Option<Seq<char>> {
    match t {
        Type::Ident(n) => Some(n.rust@),
        _ => None,
    }
}

} // verus!
