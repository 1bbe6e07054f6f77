use std::collections::hash_map::DefaultHasher;
use std::hash::{Hash, Hasher};

use cxx_glue::instantiate::{collect_impl_keys, ImplKey};
use cxx_glue::registry::{is_atom, Resolution, Types};
use cxx_glue::syntax::{Loc, NamedType, Signature, Ty1, Type};

fn at(line: usize, column: usize) -> Loc {
    Loc { line, column }
}

fn named(name: &str, line: usize) -> Type {
    Type::Ident(NamedType {
        rust: name.to_string(),
        span: at(line, 0),
        lt_token: None,
        gt_token: None,
    })
}

fn generic(name: &str, line: usize) -> Type {
    Type::Ident(NamedType {
        rust: name.to_string(),
        span: at(line, 0),
        lt_token: Some(at(line, 10)),
        gt_token: Some(at(line, 20)),
    })
}

fn ty1(wrapper: &str, inner: Type, line: usize) -> Ty1 {
    Ty1 {
        name: wrapper.to_string(),
        name_span: at(line, 1),
        langle: at(line, 4),
        inner,
        rangle: at(line, 30),
    }
}

fn boxed(inner: Type, line: usize) -> Type {
    Type::RustBox(Box::new(ty1("Box", inner, line)))
}

fn function(ret: Option<Type>, args: Vec<Type>, line: usize) -> Type {
    let sig = Type::Fn(Box::new(Signature { args, ret }));
    Type::CxxFunction(Box::new(ty1("CxxFunction", sig, line)))
}

fn hash_of(k: &ImplKey<'_>) -> u64 {
    let mut h = DefaultHasher::new();
    k.hash(&mut h);
    h.finish()
}

fn no_registry() -> Types {
    Types { resolutions: Vec::new() }
}

fn link_name(t: &Type, types: &Types) -> String {
    match t.impl_key() {
        Some(ImplKey::CxxFunction(f)) => f.link_name_invoke(types),
        _ => panic!("not a function key"),
    }
}

#[test]
fn classify_twice_gives_equal_keys() {
    let t = boxed(named("Shared", 3), 3);
    let a = t.impl_key().unwrap();
    let b = t.impl_key().unwrap();
    assert!(a == b);
    assert_eq!(hash_of(&a), hash_of(&b));
    let f = function(Some(named("i32", 4)), vec![named("Shared", 4)], 4);
    let c = f.impl_key().unwrap();
    let d = f.impl_key().unwrap();
    assert!(c == d);
    assert_eq!(hash_of(&c), hash_of(&d));
}

#[test]
fn positions_and_brackets_do_not_change_keys() {
    let a = boxed(named("Shared", 3), 3);
    let b = boxed(generic("Shared", 40), 40);
    let ka = a.impl_key().unwrap();
    let kb = b.impl_key().unwrap();
    assert!(ka == kb);
    assert_eq!(hash_of(&ka), hash_of(&kb));
    let c = boxed(named("Other", 3), 3);
    assert!(ka != c.impl_key().unwrap());
}

#[test]
fn different_wrappers_give_different_keys() {
    let inner = || named("Shared", 1);
    let kinds = vec![
        Type::RustBox(Box::new(ty1("Box", inner(), 1))),
        Type::RustVec(Box::new(ty1("Vec", inner(), 1))),
        Type::UniquePtr(Box::new(ty1("UniquePtr", inner(), 1))),
        Type::SharedPtr(Box::new(ty1("SharedPtr", inner(), 1))),
        Type::WeakPtr(Box::new(ty1("WeakPtr", inner(), 1))),
        Type::CxxVector(Box::new(ty1("CxxVector", inner(), 1))),
    ];
    let keys: Vec<ImplKey<'_>> = kinds.iter().map(|t| t.impl_key().unwrap()).collect();
    for i in 0..keys.len() {
        for j in 0..keys.len() {
            assert_eq!(keys[i] == keys[j], i == j);
        }
    }
}

#[test]
fn named_key_keeps_positions() {
    let t = boxed(generic("Shared", 7), 7);
    match t.impl_key() {
        Some(ImplKey::RustBox(k)) => {
            assert_eq!(k.rust, "Shared");
            assert_eq!(k.begin_span, at(7, 1));
            assert_eq!(k.end_span, at(7, 30));
            assert_eq!(k.lt_token, Some(at(7, 10)));
            assert_eq!(k.gt_token, Some(at(7, 20)));
        }
        _ => panic!("expected a box key"),
    }
}

#[test]
fn nested_wrapper_is_not_classified() {
    let t = boxed(boxed(named("Shared", 2), 2), 2);
    assert!(t.impl_key().is_none());
    let r = Type::RustVec(Box::new(ty1("Vec", Type::Ref(Box::new(named("Shared", 2))), 2)));
    assert!(r.impl_key().is_none());
}

#[test]
fn other_shapes_are_not_classified() {
    assert!(named("Shared", 1).impl_key().is_none());
    assert!(Type::Void(at(1, 1)).impl_key().is_none());
    assert!(Type::Str(at(1, 1)).impl_key().is_none());
    assert!(Type::Ref(Box::new(named("Shared", 1))).impl_key().is_none());
    let not_fn = Type::CxxFunction(Box::new(ty1("CxxFunction", named("i32", 1), 1)));
    assert!(not_fn.impl_key().is_none());
}

#[test]
fn reference_return_excludes_function() {
    let t = function(
        Some(Type::Ref(Box::new(named("i32", 1)))),
        vec![named("i32", 1)],
        1,
    );
    assert!(t.impl_key().is_none());
}

#[test]
fn non_name_arguments_are_filtered() {
    let t = function(
        Some(named("i32", 1)),
        vec![
            named("u8", 1),
            Type::Ref(Box::new(named("Shared", 1))),
            named("Shared", 1),
        ],
        1,
    );
    match t.impl_key() {
        Some(ImplKey::CxxFunction(f)) => {
            assert_eq!(f.ret, Some("i32".to_string()));
            assert_eq!(f.args, vec!["u8".to_string(), "Shared".to_string()]);
        }
        _ => panic!("expected a function key"),
    }
    let u = function(Some(named("i32", 9)), vec![named("u8", 9), named("Shared", 9)], 9);
    assert!(t.impl_key().unwrap() == u.impl_key().unwrap());
}

#[test]
fn function_key_link_name() {
    let t = function(Some(named("i32", 1)), vec![named("i32", 1), named("i32", 1)], 1);
    assert_eq!(
        link_name(&t, &no_registry()),
        "cxxbridge1$std$function$i32$i32$i32$invoke"
    );
}

#[test]
fn function_without_return_link_name() {
    let t = function(None, vec![], 1);
    assert_eq!(link_name(&t, &no_registry()), "cxxbridge1$std$function$$invoke");
    let u = function(None, vec![named("bool", 1)], 1);
    assert_eq!(link_name(&u, &no_registry()), "cxxbridge1$std$function$$bool$invoke");
}

#[test]
fn link_name_uses_registry_symbols() {
    let types = Types {
        resolutions: vec![
            Resolution { rust: "Shared".to_string(), symbol: "ffi_Shared".to_string() },
            Resolution { rust: "i32".to_string(), symbol: "not_used".to_string() },
        ],
    };
    let t = function(
        Some(named("Shared", 1)),
        vec![named("i32", 1), named("Opaque", 1)],
        1,
    );
    assert_eq!(
        link_name(&t, &types),
        "cxxbridge1$std$function$ffi_Shared$i32$Opaque$invoke"
    );
}

#[test]
fn link_name_is_repeatable() {
    let types = Types {
        resolutions: vec![Resolution { rust: "Shared".to_string(), symbol: "S".to_string() }],
    };
    let t = function(Some(named("Shared", 1)), vec![named("u64", 1)], 1);
    let first = link_name(&t, &types);
    let second = link_name(&t, &types);
    assert_eq!(first, second);
    let moved = function(Some(generic("Shared", 8)), vec![named("u64", 8)], 8);
    assert_eq!(first, link_name(&moved, &types));
}

#[test]
fn distinct_keys_get_distinct_link_names() {
    let types = no_registry();
    let corpus = vec![
        function(None, vec![], 1),
        function(Some(named("i32", 1)), vec![], 1),
        function(Some(named("u32", 1)), vec![], 1),
        function(None, vec![named("i32", 1)], 1),
        function(Some(named("i32", 1)), vec![named("i32", 1)], 1),
        function(Some(named("i32", 1)), vec![named("i32", 1), named("i32", 1)], 1),
        function(Some(named("i32", 1)), vec![named("u8", 1), named("i32", 1)], 1),
        function(Some(named("i32", 1)), vec![named("i32", 1), named("u8", 1)], 1),
        function(Some(named("Shared", 1)), vec![named("String", 1)], 1),
    ];
    let names: Vec<String> = corpus.iter().map(|t| link_name(t, &types)).collect();
    for i in 0..names.len() {
        for j in 0..names.len() {
            if i != j {
                assert_ne!(names[i], names[j]);
            }
        }
    }
}

#[test]
fn registry_resolves_first_entry_or_falls_back() {
    let types = Types {
        resolutions: vec![
            Resolution { rust: "A".to_string(), symbol: "first".to_string() },
            Resolution { rust: "A".to_string(), symbol: "second".to_string() },
        ],
    };
    assert_eq!(types.resolve(&"A".to_string()), "first");
    assert_eq!(types.resolve(&"B".to_string()), "B");
    assert_eq!(types.token(&"A".to_string()), "first");
    assert_eq!(types.token(&"usize".to_string()), "usize");
}

#[test]
fn primitive_names() {
    for name in ["bool", "c_char", "u8", "u16", "u32", "u64", "usize", "i8", "i16", "i32",
        "i64", "isize", "f32", "f64", "CxxString", "String"]
    {
        assert!(is_atom(&name.to_string()), "{}", name);
    }
    assert!(!is_atom(&"Shared".to_string()));
    assert!(!is_atom(&"str".to_string()));
    assert!(!is_atom(&"".to_string()));
}

#[test]
fn collect_keys_once_each_in_first_order() {
    let decls = vec![
        boxed(named("A", 1), 1),
        named("A", 2),
        boxed(generic("A", 3), 3),
        function(Some(named("i32", 4)), vec![named("u8", 4)], 4),
        Type::RustVec(Box::new(ty1("Vec", named("A", 5), 5))),
        function(Some(named("i32", 6)), vec![named("u8", 6)], 6),
        boxed(named("B", 7), 7),
    ];
    let keys = collect_impl_keys(&decls);
    assert_eq!(keys.len(), 4);
    match &keys[0] {
        ImplKey::RustBox(k) => {
            assert_eq!(k.rust, "A");
            assert_eq!(k.begin_span, at(1, 1));
        }
        _ => panic!("expected a box key first"),
    }
    match &keys[1] {
        ImplKey::CxxFunction(f) => assert!(std::ptr::eq(f.ty, &decls[3])),
        _ => panic!("expected a function key second"),
    }
    assert!(matches!(&keys[2], ImplKey::RustVec(k) if k.rust == "A"));
    assert!(matches!(&keys[3], ImplKey::RustBox(k) if k.rust == "B"));
    assert!(collect_impl_keys(&Vec::new()).is_empty());
}
