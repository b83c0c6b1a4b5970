use autoimpl::default::{impl_default, ImplDefault, ItemKind, ParsedItem, Scope, ScopeItem};
use autoimpl::errors::Error;
use autoimpl::fields::{Field, Fields, FieldsNamed};
use autoimpl::tokens::{Delim, Tok};

fn id(s: &str) -> Tok {
    Tok::Ident(s.to_string())
}

fn p(c: char) -> Tok {
    Tok::Punct(c)
}

fn lit(s: &str) -> Tok {
    Tok::Lit(s.to_string())
}

fn field(name: &str, ty: &str, assign: Option<Vec<Tok>>) -> Field {
    Field {
        attrs: Vec::new(),
        vis: Vec::new(),
        ident: Some(name.to_string()),
        ty: vec![id(ty)],
        assign,
    }
}

fn scope_with(item: ScopeItem) -> Scope {
    Scope {
        ident: "S".to_string(),
        impl_generics: Vec::new(),
        ty_generics: Vec::new(),
        where_clause: None,
        item,
        generated: Vec::new(),
    }
}

fn attr(expr: Option<Vec<Tok>>) -> ImplDefault {
    ImplDefault { expr, where_clause: None, span: 0 }
}

#[test]
fn attr_parse_empty_has_no_expression() {
    let a = ImplDefault::parse(&Vec::new()).unwrap();
    assert!(a.expr.is_none());
    assert!(a.where_clause.is_none());
}

#[test]
fn attr_parse_expression_and_where_clause() {
    // compute ( ) where T : Default
    let src = vec![
        id("compute"),
        Tok::Open(Delim::Paren),
        Tok::Close(Delim::Paren),
        id("where"),
        id("T"),
        p(':'),
        id("Default"),
    ];
    let a = ImplDefault::parse(&src).unwrap();
    assert_eq!(
        a.expr.as_ref().unwrap(),
        &vec![id("compute"), Tok::Open(Delim::Paren), Tok::Close(Delim::Paren)]
    );
    assert_eq!(
        a.where_clause.as_ref().unwrap(),
        &vec![id("where"), id("T"), p(':'), id("Default")]
    );
}

#[test]
fn attr_parse_bare_where_clause() {
    let src = vec![id("where"), id("T"), p(':'), id("Default")];
    let a = ImplDefault::parse(&src).unwrap();
    assert!(a.expr.is_none());
    assert!(a.where_clause.is_some());
}

#[test]
fn unit_record_defaults_to_the_bare_identifier() {
    // no expression, no per-field defaults, unit record
    let mut scope = scope_with(ScopeItem::Struct(Fields::Unit));
    impl_default(attr(None), 0, &mut scope).unwrap();
    assert_eq!(scope.generated.len(), 1);
    let expected = vec![
        id("impl"),
        id("std"),
        p(':'),
        p(':'),
        id("default"),
        p(':'),
        p(':'),
        id("Default"),
        id("for"),
        id("S"),
        Tok::Open(Delim::Brace),
        id("fn"),
        id("default"),
        Tok::Open(Delim::Paren),
        Tok::Close(Delim::Paren),
        p('-'),
        p('>'),
        id("Self"),
        Tok::Open(Delim::Brace),
        id("S"),
        Tok::Close(Delim::Brace),
        Tok::Close(Delim::Brace),
    ];
    assert_eq!(scope.generated[0], expected);
}

#[test]
fn explicit_expression_overrides_per_field_defaults() {
    // fields carry their own defaults, yet the explicit expression is
    // emitted verbatim as the whole body
    let fields = vec![
        field("a", "u32", Some(vec![lit("5")])),
        field("b", "bool", Some(vec![id("true")])),
    ];
    let mut scope = scope_with(ScopeItem::Struct(Fields::Named(FieldsNamed {
        fields,
        trailing_comma: false,
    })));
    let e = vec![id("compute_default"), Tok::Open(Delim::Paren), Tok::Close(Delim::Paren)];
    impl_default(attr(Some(e.clone())), 0, &mut scope).unwrap();
    assert_eq!(scope.generated.len(), 1);
    let v = &scope.generated[0];
    assert!(v.contains(&id("compute_default")));
    // no per-field value leaks into the fragment
    assert!(!v.contains(&lit("5")));
    assert!(!v.contains(&id("a")));
    // and the per-field defaults are left in place, unconsumed
    match &scope.item {
        ScopeItem::Struct(Fields::Named(f)) => {
            assert!(f.fields[0].assign.is_some());
        }
        _ => panic!("expected the record to be kept"),
    }
}

#[test]
fn per_field_path_takes_attached_defaults_and_consumes_them() {
    // { a : u32 = 5 , b : bool }
    let fields = vec![
        field("a", "u32", Some(vec![lit("5")])),
        field("b", "bool", None),
    ];
    let mut scope = scope_with(ScopeItem::Struct(Fields::Named(FieldsNamed {
        fields,
        trailing_comma: false,
    })));
    impl_default(attr(None), 0, &mut scope).unwrap();
    let v = &scope.generated[0];
    let expected = vec![
        id("impl"),
        id("std"),
        p(':'),
        p(':'),
        id("default"),
        p(':'),
        p(':'),
        id("Default"),
        id("for"),
        id("S"),
        Tok::Open(Delim::Brace),
        id("fn"),
        id("default"),
        Tok::Open(Delim::Paren),
        Tok::Close(Delim::Paren),
        p('-'),
        p('>'),
        id("Self"),
        Tok::Open(Delim::Brace),
        id("S"),
        Tok::Open(Delim::Brace),
        id("a"),
        p(':'),
        lit("5"),
        p(','),
        id("b"),
        p(':'),
        id("Default"),
        p(':'),
        p(':'),
        id("default"),
        Tok::Open(Delim::Paren),
        Tok::Close(Delim::Paren),
        Tok::Close(Delim::Brace),
        Tok::Close(Delim::Brace),
        Tok::Close(Delim::Brace),
    ];
    assert_eq!(v, &expected);
    // the attached defaults were discharged
    match &scope.item {
        ScopeItem::Struct(Fields::Named(f)) => {
            assert!(f.fields[0].assign.is_none());
            assert!(f.fields[1].assign.is_none());
            assert_eq!(f.fields[0].ident.as_deref(), Some("a"));
        }
        _ => panic!("expected the record to be kept"),
    }
}

#[test]
fn per_field_path_on_non_record_is_rejected() {
    let mut scope = scope_with(ScopeItem::Other);
    let r = impl_default(attr(None), 7, &mut scope);
    assert_eq!(r, Err(Error::UnsupportedItemKind(7)));
    assert!(scope.generated.is_empty());
}

#[test]
fn invocation_where_clause_takes_precedence() {
    let mut scope = scope_with(ScopeItem::Struct(Fields::Unit));
    scope.where_clause = Some(vec![id("where"), id("T"), p(':'), id("ItemBound")]);
    let a = ImplDefault {
        expr: Some(vec![lit("0")]),
        where_clause: Some(vec![id("where"), id("T"), p(':'), id("AttrBound")]),
        span: 0,
    };
    impl_default(a, 0, &mut scope).unwrap();
    let v = &scope.generated[0];
    assert!(v.contains(&id("AttrBound")));
    assert!(!v.contains(&id("ItemBound")));
}

#[test]
fn declaration_where_clause_is_kept_when_none_is_supplied() {
    let mut scope = scope_with(ScopeItem::Struct(Fields::Unit));
    scope.where_clause = Some(vec![id("where"), id("T"), p(':'), id("ItemBound")]);
    impl_default(attr(Some(vec![lit("0")])), 0, &mut scope).unwrap();
    assert!(scope.generated[0].contains(&id("ItemBound")));
}

#[test]
fn expand_without_expression_is_a_missing_context_error() {
    let a = attr(None);
    let item = ParsedItem {
        kind: ItemKind::Record,
        ident: "S".to_string(),
        impl_generics: Vec::new(),
        ty_generics: Vec::new(),
        where_clause: None,
    };
    assert_eq!(a.expand(&item), Err(Error::MissingContext(0)));
}

#[test]
fn expand_accepts_enumerations_aliases_and_unions() {
    for kind in [ItemKind::Record, ItemKind::Enumeration, ItemKind::TypeAlias, ItemKind::Union] {
        let a = attr(Some(vec![lit("0")]));
        let item = ParsedItem {
            kind,
            ident: "E".to_string(),
            impl_generics: Vec::new(),
            ty_generics: Vec::new(),
            where_clause: None,
        };
        let v = a.expand(&item).unwrap();
        assert!(v.contains(&id("impl")));
        assert!(v.contains(&lit("0")));
        assert!(v.contains(&id("E")));
    }
}

#[test]
fn expand_rejects_other_item_kinds() {
    let a = attr(Some(vec![lit("0")]));
    let item = ParsedItem {
        kind: ItemKind::Other,
        ident: "f".to_string(),
        impl_generics: Vec::new(),
        ty_generics: Vec::new(),
        where_clause: None,
    };
    assert_eq!(a.expand(&item), Err(Error::UnsupportedItemKind(0)));
}
