use autoimpl::errors::Error;
use autoimpl::fields::{DataStruct, Fields};
use autoimpl::parse::data_struct;
use autoimpl::tokens::{Delim, Tok};

fn id(s: &str) -> Tok {
    Tok::Ident(s.to_string())
}

fn p(c: char) -> Tok {
    Tok::Punct(c)
}

fn lit(s: &str) -> Tok {
    Tok::Lit(s.to_string())
}

fn render_body(d: &DataStruct) -> (Vec<Tok>, Vec<Error>) {
    let mut toks: Vec<Tok> = Vec::new();
    let mut diags: Vec<Error> = Vec::new();
    d.to_tokens(&mut toks, &mut diags);
    (toks, diags)
}

#[test]
fn named_list_parses_and_rerenders_identically() {
    // { a : u32 , b : String }
    let src = vec![
        Tok::Open(Delim::Brace),
        id("a"),
        p(':'),
        id("u32"),
        p(','),
        id("b"),
        p(':'),
        id("String"),
        Tok::Close(Delim::Brace),
    ];
    let d = data_struct(&src).unwrap();
    assert!(!d.semi);
    match &d.fields {
        Fields::Named(f) => {
            assert_eq!(f.fields.len(), 2);
            assert!(!f.trailing_comma);
            assert_eq!(f.fields[0].ident.as_deref(), Some("a"));
            assert_eq!(f.fields[0].ty, vec![id("u32")]);
            assert!(f.fields[0].assign.is_none());
            assert_eq!(f.fields[1].ident.as_deref(), Some("b"));
        }
        _ => panic!("expected named fields"),
    }
    let (out, diags) = render_body(&d);
    assert_eq!(out, src);
    assert!(diags.is_empty());
}

#[test]
fn trailing_comma_is_kept_on_rerender() {
    // { a : u32 , }
    let src = vec![
        Tok::Open(Delim::Brace),
        id("a"),
        p(':'),
        id("u32"),
        p(','),
        Tok::Close(Delim::Brace),
    ];
    let d = data_struct(&src).unwrap();
    match &d.fields {
        Fields::Named(f) => assert!(f.trailing_comma),
        _ => panic!("expected named fields"),
    }
    let (out, diags) = render_body(&d);
    assert_eq!(out, src);
    assert!(diags.is_empty());
}

#[test]
fn generic_type_with_comma_stays_one_field() {
    // { m : HashMap < K , V > }
    let src = vec![
        Tok::Open(Delim::Brace),
        id("m"),
        p(':'),
        id("HashMap"),
        p('<'),
        id("K"),
        p(','),
        id("V"),
        p('>'),
        Tok::Close(Delim::Brace),
    ];
    let d = data_struct(&src).unwrap();
    match &d.fields {
        Fields::Named(f) => {
            assert_eq!(f.fields.len(), 1);
            assert_eq!(f.fields[0].ty.len(), 6);
        }
        _ => panic!("expected named fields"),
    }
    let (out, _) = render_body(&d);
    assert_eq!(out, src);
}

#[test]
fn default_expression_is_parsed_and_never_rerendered() {
    // { a : u32 = compute ( ) }
    let src = vec![
        Tok::Open(Delim::Brace),
        id("a"),
        p(':'),
        id("u32"),
        p('='),
        id("compute"),
        Tok::Open(Delim::Paren),
        Tok::Close(Delim::Paren),
        Tok::Close(Delim::Brace),
    ];
    let d = data_struct(&src).unwrap();
    match &d.fields {
        Fields::Named(f) => {
            let e = f.fields[0].assign.as_ref().unwrap();
            assert_eq!(
                e,
                &vec![id("compute"), Tok::Open(Delim::Paren), Tok::Close(Delim::Paren)]
            );
        }
        _ => panic!("expected named fields"),
    }
    let (out, diags) = render_body(&d);
    // the dangling default expression is reported and dropped
    assert_eq!(diags.len(), 1);
    assert!(matches!(diags[0], Error::DanglingDefaultExpression(_)));
    let expected = vec![
        Tok::Open(Delim::Brace),
        id("a"),
        p(':'),
        id("u32"),
        Tok::Close(Delim::Brace),
    ];
    assert_eq!(out, expected);
    assert!(!out.contains(&id("compute")));
}

#[test]
fn unnamed_list_with_terminator() {
    // ( u32 , String ) ;
    let src = vec![
        Tok::Open(Delim::Paren),
        id("u32"),
        p(','),
        id("String"),
        Tok::Close(Delim::Paren),
        p(';'),
    ];
    let d = data_struct(&src).unwrap();
    assert!(d.semi);
    match &d.fields {
        Fields::Unnamed(f) => {
            assert_eq!(f.fields.len(), 2);
            assert!(f.fields[0].ident.is_none());
        }
        _ => panic!("expected unnamed fields"),
    }
    let (out, _) = render_body(&d);
    assert_eq!(out, src);
}

#[test]
fn unnamed_without_terminator_is_rejected() {
    let src = vec![
        Tok::Open(Delim::Paren),
        id("u32"),
        Tok::Close(Delim::Paren),
    ];
    assert!(matches!(data_struct(&src), Err(Error::Syntax(_))));
}

#[test]
fn unit_body_is_a_bare_terminator() {
    let d = data_struct(&vec![p(';')]).unwrap();
    assert!(d.semi);
    assert!(matches!(d.fields, Fields::Unit));
    assert!(d.where_clause.is_none());
}

#[test]
fn leading_where_clause_is_recorded_opaquely() {
    // where T : Clone { a : T }
    let src = vec![
        id("where"),
        id("T"),
        p(':'),
        id("Clone"),
        Tok::Open(Delim::Brace),
        id("a"),
        p(':'),
        id("T"),
        Tok::Close(Delim::Brace),
    ];
    let d = data_struct(&src).unwrap();
    let wc = d.where_clause.as_ref().unwrap();
    assert_eq!(wc, &vec![id("where"), id("T"), p(':'), id("Clone")]);
    let (out, _) = render_body(&d);
    assert_eq!(out, src);
}

#[test]
fn tuple_with_trailing_where_clause() {
    // ( T ) where T : Sized ;
    let src = vec![
        Tok::Open(Delim::Paren),
        id("T"),
        Tok::Close(Delim::Paren),
        id("where"),
        id("T"),
        p(':'),
        id("Sized"),
        p(';'),
    ];
    let d = data_struct(&src).unwrap();
    assert!(d.semi);
    let wc = d.where_clause.as_ref().unwrap();
    assert_eq!(wc, &vec![id("where"), id("T"), p(':'), id("Sized")]);
}

#[test]
fn missing_colon_is_a_syntax_error() {
    let src = vec![
        Tok::Open(Delim::Brace),
        id("a"),
        id("u32"),
        Tok::Close(Delim::Brace),
    ];
    assert!(matches!(data_struct(&src), Err(Error::Syntax(_))));
}

#[test]
fn attributes_and_visibility_are_echoed() {
    // { # [ serde ] pub a : u32 }
    let src = vec![
        Tok::Open(Delim::Brace),
        p('#'),
        Tok::Open(Delim::Bracket),
        id("serde"),
        Tok::Close(Delim::Bracket),
        id("pub"),
        id("a"),
        p(':'),
        id("u32"),
        Tok::Close(Delim::Brace),
    ];
    let d = data_struct(&src).unwrap();
    match &d.fields {
        Fields::Named(f) => {
            assert_eq!(f.fields[0].attrs.len(), 4);
            assert_eq!(f.fields[0].vis, vec![id("pub")]);
        }
        _ => panic!("expected named fields"),
    }
    let (out, _) = render_body(&d);
    assert_eq!(out, src);
}

#[test]
fn literal_tokens_round_trip_in_types() {
    // { a : [ u8 ; 4 ] }
    let src = vec![
        Tok::Open(Delim::Brace),
        id("a"),
        p(':'),
        Tok::Open(Delim::Bracket),
        id("u8"),
        p(';'),
        lit("4"),
        Tok::Close(Delim::Bracket),
        Tok::Close(Delim::Brace),
    ];
    let d = data_struct(&src).unwrap();
    let (out, _) = render_body(&d);
    assert_eq!(out, src);
}
