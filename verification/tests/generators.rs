use autoimpl::autoimpl::{ImplClone, ImplDebug, ImplDefault};
use autoimpl::errors::Error;
use autoimpl::fields::{Field, Fields, FieldsNamed, FieldsUnnamed, TypeDescriptor};
use autoimpl::modifiers::{FieldIdent, ModifierSet};
use autoimpl::registry::{apply_all, lookup, Capability};
use autoimpl::tokens::{Delim, Tok};
use autoimpl::SimplePath;

fn id(s: &str) -> Tok {
    Tok::Ident(s.to_string())
}

fn p(c: char) -> Tok {
    Tok::Punct(c)
}

fn lit(s: &str) -> Tok {
    Tok::Lit(s.to_string())
}

fn named_field(name: &str, ty: &str) -> Field {
    Field {
        attrs: Vec::new(),
        vis: Vec::new(),
        ident: Some(name.to_string()),
        ty: vec![id(ty)],
        assign: None,
    }
}

fn pos_field(ty: &str) -> Field {
    Field { attrs: Vec::new(), vis: Vec::new(), ident: None, ty: vec![id(ty)], assign: None }
}

fn named_item(name: &str, fields: Vec<Field>) -> TypeDescriptor {
    TypeDescriptor {
        ident: name.to_string(),
        generics: Vec::new(),
        fields: Fields::Named(FieldsNamed { fields, trailing_comma: false }),
    }
}

fn ignore_named(names: &[&str]) -> ModifierSet {
    ModifierSet {
        ignored: names.iter().map(|n| FieldIdent::Named(n.to_string())).collect(),
        using_field: None,
    }
}

fn count(v: &[Tok], t: &Tok) -> usize {
    v.iter().filter(|x| *x == t).count()
}

#[test]
fn clone_copies_others_and_defaults_ignored() {
    // record { a, b, c } with ignore(b): a and c copied, b defaulted
    let item = named_item(
        "S",
        vec![named_field("a", "u32"), named_field("b", "u8"), named_field("c", "i64")],
    );
    let args = ignore_named(&["b"]);
    let v = ImplClone.struct_items(&item, &args).unwrap();
    let expected = vec![
        id("fn"),
        id("clone"),
        Tok::Open(Delim::Paren),
        p('&'),
        id("self"),
        Tok::Close(Delim::Paren),
        p('-'),
        p('>'),
        id("Self"),
        Tok::Open(Delim::Brace),
        id("S"),
        Tok::Open(Delim::Brace),
        // a: self.a.clone(),
        id("a"),
        p(':'),
        id("self"),
        p('.'),
        id("a"),
        p('.'),
        id("clone"),
        Tok::Open(Delim::Paren),
        Tok::Close(Delim::Paren),
        p(','),
        // b: Default::default(),
        id("b"),
        p(':'),
        id("Default"),
        p(':'),
        p(':'),
        id("default"),
        Tok::Open(Delim::Paren),
        Tok::Close(Delim::Paren),
        p(','),
        // c: self.c.clone(),
        id("c"),
        p(':'),
        id("self"),
        p('.'),
        id("c"),
        p('.'),
        id("clone"),
        Tok::Open(Delim::Paren),
        Tok::Close(Delim::Paren),
        p(','),
        Tok::Close(Delim::Brace),
        Tok::Close(Delim::Brace),
    ];
    assert_eq!(v, expected);
}

#[test]
fn clone_unit_constructs_the_same_unit_value() {
    let item = TypeDescriptor {
        ident: "U".to_string(),
        generics: Vec::new(),
        fields: Fields::Unit,
    };
    let v = ImplClone.struct_items(&item, &ModifierSet::none()).unwrap();
    let expected = vec![
        id("fn"),
        id("clone"),
        Tok::Open(Delim::Paren),
        p('&'),
        id("self"),
        Tok::Close(Delim::Paren),
        p('-'),
        p('>'),
        id("Self"),
        Tok::Open(Delim::Brace),
        id("U"),
        Tok::Close(Delim::Brace),
    ];
    assert_eq!(v, expected);
}

#[test]
fn clone_tuple_uses_position_indices() {
    let item = TypeDescriptor {
        ident: "T2".to_string(),
        generics: Vec::new(),
        fields: Fields::Unnamed(FieldsUnnamed {
            fields: vec![pos_field("u32"), pos_field("u8")],
            trailing_comma: false,
        }),
    };
    let args = ModifierSet { ignored: vec![FieldIdent::Unnamed(1)], using_field: None };
    let v = ImplClone.struct_items(&item, &args).unwrap();
    assert!(v.contains(&lit("0")));
    // the ignored slot takes a default, not a position access
    assert!(!v.contains(&lit("1")));
    assert_eq!(count(&v, &id("clone")) >= 1, true);
    assert_eq!(count(&v, &id("default")), 1);
}

#[test]
fn clone_tuple_indices_reach_two_digits() {
    let fields: Vec<Field> = (0..12).map(|_| pos_field("u8")).collect();
    let item = TypeDescriptor {
        ident: "Wide".to_string(),
        generics: Vec::new(),
        fields: Fields::Unnamed(FieldsUnnamed { fields, trailing_comma: false }),
    };
    let v = ImplClone.struct_items(&item, &ModifierSet::none()).unwrap();
    assert!(v.contains(&lit("0")));
    assert!(v.contains(&lit("9")));
    assert!(v.contains(&lit("10")));
    assert!(v.contains(&lit("11")));
    assert!(!v.contains(&lit("12")));
}

#[test]
fn debug_with_no_ignored_field_finishes_exhaustively() {
    let item = named_item("S", vec![named_field("a", "u32"), named_field("b", "u8")]);
    let v = ImplDebug.struct_items(&item, &ModifierSet::none()).unwrap();
    assert!(v.contains(&id("finish")));
    assert!(!v.contains(&id("finish_non_exhaustive")));
    assert_eq!(count(&v, &id("field")), 2);
    assert!(v.contains(&lit("\"a\"")));
    assert!(v.contains(&lit("\"b\"")));
    assert!(v.contains(&lit("\"S\"")));
}

#[test]
fn debug_with_one_ignored_field_is_non_exhaustive() {
    let item = named_item(
        "S",
        vec![named_field("a", "u32"), named_field("b", "u8"), named_field("c", "i64")],
    );
    let v = ImplDebug.struct_items(&item, &ignore_named(&["c"])).unwrap();
    assert!(v.contains(&id("finish_non_exhaustive")));
    // only the included fields get entries
    assert_eq!(count(&v, &id("field")), 2);
    assert!(!v.contains(&lit("\"c\"")));
}

#[test]
fn debug_tuple_keeps_arity_with_placeholder() {
    // (x, y) with ignore(1): two slots, second a placeholder
    let item = TypeDescriptor {
        ident: "P".to_string(),
        generics: Vec::new(),
        fields: Fields::Unnamed(FieldsUnnamed {
            fields: vec![pos_field("u32"), pos_field("u8")],
            trailing_comma: false,
        }),
    };
    let args = ModifierSet { ignored: vec![FieldIdent::Unnamed(1)], using_field: None };
    let v = ImplDebug.struct_items(&item, &args).unwrap();
    assert_eq!(count(&v, &id("field")), 2);
    assert!(v.contains(&lit("\"_\"")));
    assert!(v.contains(&id("format_args")));
    assert!(v.contains(&lit("0")));
    assert!(!v.contains(&lit("1")));
    assert!(v.contains(&id("finish")));
    assert!(!v.contains(&id("finish_non_exhaustive")));
}

#[test]
fn debug_unit_writes_the_bare_name() {
    let item = TypeDescriptor {
        ident: "U".to_string(),
        generics: Vec::new(),
        fields: Fields::Unit,
    };
    let v = ImplDebug.struct_items(&item, &ModifierSet::none()).unwrap();
    assert!(v.contains(&id("write_str")));
    assert!(v.contains(&lit("\"U\"")));
}

#[test]
fn default_capability_defaults_every_field() {
    let item = named_item("S", vec![named_field("a", "u32"), named_field("b", "u8")]);
    let v = ImplDefault.struct_items(&item, &ModifierSet::none()).unwrap();
    assert_eq!(count(&v, &id("default")), 3);  // fn default + one call per field
    assert_eq!(count(&v, &id("Default")), 2);
}

#[test]
fn registry_selects_by_fully_qualified_name() {
    let clone_path = SimplePath::new(&["", "core", "clone", "Clone"]);
    let debug_path = SimplePath::new(&["", "core", "fmt", "Debug"]);
    let default_path = SimplePath::new(&["", "core", "default", "Default"]);
    let other = SimplePath::new(&["", "core", "cmp", "PartialEq"]);
    assert_eq!(lookup(&clone_path), Some(Capability::CopyCapability));
    assert_eq!(lookup(&debug_path), Some(Capability::DebugCapability));
    assert_eq!(lookup(&default_path), Some(Capability::DefaultCapability));
    assert_eq!(lookup(&other), None);
    assert_eq!(lookup(&ImplClone.path()), Some(Capability::CopyCapability));
    assert_eq!(lookup(&ImplDebug.path()), Some(Capability::DebugCapability));
    assert_eq!(lookup(&ImplDefault.path()), Some(Capability::DefaultCapability));
}

#[test]
fn support_flags_are_fixed_per_capability() {
    assert!(ImplClone.support_ignore());
    assert!(!ImplClone.support_using());
    assert!(ImplDebug.support_ignore());
    assert!(!ImplDebug.support_using());
    assert!(!ImplDefault.support_ignore());
    assert!(!ImplDefault.support_using());
}

#[test]
fn unsupported_ignore_fails_only_its_own_invocation() {
    // ignore on default-construction (supportsIgnore = false) raises
    // UnsupportedModifier; the sibling invocations still succeed
    let item = named_item("S", vec![named_field("a", "u32")]);
    let invocations = vec![
        (Capability::CopyCapability, ignore_named(&["a"])),
        (Capability::DefaultCapability, ignore_named(&["a"])),
        (Capability::DebugCapability, ModifierSet::none()),
    ];
    let results = apply_all(&item, &invocations);
    assert_eq!(results.len(), 3);
    assert!(results[0].is_ok());
    assert_eq!(results[1], Err(Error::UnsupportedModifier(1)));
    assert!(results[2].is_ok());
}

#[test]
fn using_is_rejected_by_every_builtin_capability() {
    let item = named_item("S", vec![named_field("a", "u32")]);
    let args = ModifierSet {
        ignored: Vec::new(),
        using_field: Some(FieldIdent::Named("a".to_string())),
    };
    let invocations = vec![
        (Capability::CopyCapability, args),
    ];
    let results = apply_all(&item, &invocations);
    assert_eq!(results[0], Err(Error::UnsupportedModifier(0)));
}
