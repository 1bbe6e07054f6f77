use vstd::prelude::*;
use vstd::string::*;

verus! {

/// The names of the primitive types, which are spelled as written in symbols.
pub open spec fn is_atom_name(s: Seq<char>) -> bool {
    s == "bool"@ || s == "c_char"@ || s == "u8"@ || s == "u16"@ || s == "u32"@
        || s == "u64"@ || s == "usize"@ || s == "i8"@ || s == "i16"@ || s == "i32"@
        || s == "i64"@ || s == "isize"@ || s == "f32"@ || s == "f64"@
        || s == "CxxString"@ || s == "String"@
}

/// Whether a string is spelled exactly as a literal.
fn spelled(s: &String, lit: &str) -> (r: bool)
    ensures
        r == (s@ == lit@),
{
    *s == String::from_str(lit)
}

/// Whether an identifier names a primitive type.
pub fn is_atom(ident: &String) -> (r: bool)
    ensures
        r == is_atom_name(ident@),
{
    spelled(ident, "bool") ||
        spelled(ident, "c_char") ||
        spelled(ident, "u8") ||
        spelled(ident, "u16") ||
        spelled(ident, "u32") ||
        spelled(ident, "u64") ||
        spelled(ident, "usize") ||
        spelled(ident, "i8") ||
        spelled(ident, "i16") ||
        spelled(ident, "i32") ||
        spelled(ident, "i64") ||
        spelled(ident, "isize") ||
        spelled(ident, "f32") ||
        spelled(ident, "f64") ||
        spelled(ident, "CxxString") ||
        spelled(ident, "String")
}

/// What the type registry knows of one user type: its name in the bridge
/// and the symbol under which it appears in linkage names.
pub struct Resolution {
    pub rust: String,
    pub symbol: String,
}

/// The type registry, as seen by symbol synthesis.
pub struct Types {
    pub resolutions: Vec<Resolution>,
}

/// The symbol that the first resolution of `id` gives, or `id` itself when
/// the registry does not know it.
pub open spec fn resolve_in(rs: Seq<(Seq<char>, Seq<char>)>, id: Seq<char>) -> Seq<char>
    decreases rs.len(),
{
    if rs.len() == 0 {
        id
    } else if rs[0].0 == id {
        rs[0].1
    } else {
        resolve_in(rs.subrange(1, rs.len() as int), id)
    }
}

/// The token that stands for a type name in a linkage name.
pub open spec fn token_of(reg: Seq<(Seq<char>, Seq<char>)>, id: Seq<char>) -> Seq<char> {
    if is_atom_name(id) {
        id
    } else {
        resolve_in(reg, id)
    }
}

impl View for Types {
    type V = Seq<(Seq<char>, Seq<char>)>;

    open spec fn view(&self) -> Seq<(Seq<char>, Seq<char>)> {
        self.resolutions@.map_values(|r: Resolution| (r.rust@, r.symbol@))
    }
}

impl Types {
    /// The symbol of a user type, falling back to its identifier.
    pub fn resolve(&self, ident: &String) -> (r: String)
        ensures
            r@ == resolve_in(self@, ident@),
    {
        let mut i: usize = 0;
        assert(self@.subrange(0, self@.len() as int) =~= self@);
        while i < self.resolutions.len()
            invariant
                0 <= i <= self@.len(),
                self@.len() == self.resolutions@.len(),
                resolve_in(self@, ident@) == resolve_in(
                    self@.subrange(i as int, self@.len() as int),
                    ident@,
                ),
            decreases self.resolutions.len() - i,
        {
            let entry = &self.resolutions[i];
            assert(self@.subrange(i as int, self@.len() as int).subrange(
                1,
                self@.len() - i,
            ) =~= self@.subrange(i + 1, self@.len() as int));
            if entry.rust == *ident {
                return entry.symbol.clone();
            }
            i += 1;
        }
        ident.clone()
    }

    /// The token for a type name: its own spelling for a primitive type,
    /// its registry symbol otherwise.
    pub fn token(&self, ident: &String) -> (r: String)
        ensures
            r@ == token_of(self@, ident@),
    {
        if is_atom(ident) {
            ident.clone()
        } else {
            self.resolve(ident)
        }
    }
}

} // verus!
