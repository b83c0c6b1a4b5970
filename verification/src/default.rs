//! The default-construction invocation: either an explicit whole-type
//! default expression supplied at invocation time, or — inside a
//! declaration context — one value per field, taking each field's
//! attached default-value expression when present and the type's
//! generic default otherwise.  An explicit expression always takes
//! precedence and suppresses the per-field path entirely.

use vstd::prelude::*;

use crate::errors::Error;
use crate::fields::{
    field_stripped, Field, FieldV, Fields, FieldsNamed, FieldsUnnamed, FieldsV,
};
use crate::parse::{is_kw, opt_view, sp_where, tok_is_kw, where_end};
use crate::render::strip_list;
use crate::tokens::{
    append_copy, copy_range, push_close, push_id, push_open, push_p, push_tok, toks_dv, Delim, Tok,
    TokV,
};
use crate::autoimpl::{sp_default_call, sp_dflt_prefix};

verus! {

/// The parsed arguments of one default-construction invocation.
pub struct ImplDefault {
    /// The explicit whole-type default expression, if one was given.
    pub expr: Option<Vec<Tok>>,
    /// A where-clause supplied at the invocation site, its `where`
    /// keyword included.
    pub where_clause: Option<Vec<Tok>>,
    /// The token position the invocation's diagnostics point at.
    pub span: usize,
}

pub ghost struct ImplDefaultV {
    pub expr: Option<Seq<Tok>>,
    pub where_clause: Option<Seq<Tok>>,
    pub span: usize,
}

impl View for ImplDefault {
    type V = ImplDefaultV;

    open spec fn view(&self) -> ImplDefaultV {
        ImplDefaultV {
            expr: opt_view(self.expr),
            where_clause: opt_view(self.where_clause),
            span: self.span,
        }
    }
}

/// End of the explicit expression run of an invocation: stops at a
/// top-level `where` keyword, `,` outside angle brackets, or the
/// closing delimiter of the surrounding group.
pub open spec fn sp_expr_end(s: Seq<Tok>, i: int, gdepth: nat, angle: nat) -> Option<int>
    decreases s.len() - i,
{
    if i < 0 {
        None
    } else if i >= s.len() {
        if gdepth == 0 {
            Some(i)
        } else {
            None
        }
    } else {
        match s[i] {
            Tok::Open(_) => sp_expr_end(s, i + 1, gdepth + 1, angle),
            Tok::Close(_) => if gdepth == 0 {
                Some(i)
            } else {
                sp_expr_end(s, i + 1, (gdepth - 1) as nat, angle)
            },
            Tok::Ident(id) => if gdepth == 0 && id@ == "where"@ {
                Some(i)
            } else {
                sp_expr_end(s, i + 1, gdepth, angle)
            },
            Tok::Punct(c) => if gdepth == 0 && angle == 0 && c == ',' {
                Some(i)
            } else if gdepth == 0 && c == '<' {
                sp_expr_end(s, i + 1, 0, angle + 1)
            } else if gdepth == 0 && c == '>' && angle > 0 {
                sp_expr_end(s, i + 1, 0, (angle - 1) as nat)
            } else {
                sp_expr_end(s, i + 1, gdepth, angle)
            },
            _ => sp_expr_end(s, i + 1, gdepth, angle),
        }
    }
}

pub proof fn lemma_sp_expr_end_range(s: Seq<Tok>, i: int, gdepth: nat, angle: nat)
    requires
        0 <= i,
    ensures
        match sp_expr_end(s, i, gdepth, angle) {
            Some(j) => i <= j && (j <= s.len() || j == i),
            None => true,
        },
    decreases s.len() - i,
{
    if i >= s.len() {
    } else {
        match s[i] {
            Tok::Open(_) => lemma_sp_expr_end_range(s, i + 1, gdepth + 1, angle),
            Tok::Close(_) => if gdepth == 0 {
            } else {
                lemma_sp_expr_end_range(s, i + 1, (gdepth - 1) as nat, angle)
            },
            Tok::Ident(id) => if gdepth == 0 && id@ == "where"@ {
            } else {
                lemma_sp_expr_end_range(s, i + 1, gdepth, angle)
            },
            Tok::Punct(c) => if gdepth == 0 && angle == 0 && c == ',' {
            } else if gdepth == 0 && c == '<' {
                lemma_sp_expr_end_range(s, i + 1, 0, angle + 1)
            } else if gdepth == 0 && c == '>' && angle > 0 {
                lemma_sp_expr_end_range(s, i + 1, 0, (angle - 1) as nat)
            } else {
                lemma_sp_expr_end_range(s, i + 1, gdepth, angle)
            },
            _ => lemma_sp_expr_end_range(s, i + 1, gdepth, angle),
        }
    }
}

fn expr_end(s: &Vec<Tok>, i: usize, gdepth: usize, angle: usize) -> (r: Option<usize>)
    requires
        gdepth <= i,
        angle <= i,
        i <= s@.len() < usize::MAX,
    ensures
        crate::parse::opt_agrees(r, sp_expr_end(s@, i as int, gdepth as nat, angle as nat)),
    decreases s@.len() - i,
{
    if i >= s.len() {
        if gdepth == 0 {
            Some(i)
        } else {
            None
        }
    } else {
        match &s[i] {
            Tok::Open(_) => expr_end(s, i + 1, gdepth + 1, angle),
            Tok::Close(_) => if gdepth == 0 {
                Some(i)
            } else {
                expr_end(s, i + 1, gdepth - 1, angle)
            },
            Tok::Ident(id) => if gdepth == 0 && crate::tokens::str_is(id, "where") {
                Some(i)
            } else {
                expr_end(s, i + 1, gdepth, angle)
            },
            Tok::Punct(c) => {
                let cc = *c;
                if gdepth == 0 && angle == 0 && cc == ',' {
                    Some(i)
                } else if gdepth == 0 && cc == '<' {
                    expr_end(s, i + 1, 0, angle + 1)
                } else if gdepth == 0 && cc == '>' && angle > 0 {
                    expr_end(s, i + 1, 0, angle - 1)
                } else {
                    expr_end(s, i + 1, gdepth, angle)
                }
            },
            Tok::Lit(_) => expr_end(s, i + 1, gdepth, angle),
        }
    }
}

/// The invocation-argument grammar: an optional expression, then an
/// optional where-clause, then nothing.
pub open spec fn sp_attr_parse(s: Seq<Tok>) -> Option<ImplDefaultV> {
    if s.len() > 0 && !is_kw(s[0], "where"@) {
        match sp_expr_end(s, 0, 0, 0) {
            None => None,
            Some(e) => if e <= 0 {
                None
            } else {
                sp_attr_tail(s, Some(s.subrange(0, e)), e)
            },
        }
    } else {
        sp_attr_tail(s, None, 0)
    }
}

pub open spec fn sp_attr_tail(s: Seq<Tok>, expr: Option<Seq<Tok>>, i: int) -> Option<
    ImplDefaultV,
> {
    if i == s.len() {
        Some(ImplDefaultV { expr, where_clause: None, span: 0 })
    } else if 0 <= i < s.len() && is_kw(s[i], "where"@) {
        match sp_where(s, i + 1, 0) {
            None => None,
            Some(w) => if w == s.len() {
                Some(ImplDefaultV { expr, where_clause: Some(s.subrange(i, w)), span: 0 })
            } else {
                None
            },
        }
    } else {
        None
    }
}

impl ImplDefault {
    /// Parse the invocation arguments: `[expr] [where-clause]`, with
    /// anything left over rejected.
    pub fn parse(s: &Vec<Tok>) -> (r: Result<ImplDefault, Error>)
        requires
            s@.len() < usize::MAX,
        ensures
            match r {
                Ok(a) => sp_attr_parse(s@) == Some(a@),
                Err(e) => sp_attr_parse(s@) is None && e is Syntax,
            },
    {
        if s.len() > 0 && !tok_is_kw(&s[0], "where") {
            match expr_end(s, 0, 0, 0) {
                None => Err(Error::Syntax(0)),
                Some(e) => {
                    proof {
                        lemma_sp_expr_end_range(s@, 0, 0, 0);
                    }
                    if e == 0 {
                        Err(Error::Syntax(0))
                    } else {
                        Self::parse_tail(s, Some(copy_range(s, 0, e)), e)
                    }
                },
            }
        } else {
            Self::parse_tail(s, None, 0)
        }
    }

    fn parse_tail(s: &Vec<Tok>, expr: Option<Vec<Tok>>, i: usize) -> (r: Result<
        ImplDefault,
        Error,
    >)
        requires
            i <= s@.len() < usize::MAX,
        ensures
            match r {
                Ok(a) => sp_attr_tail(s@, opt_view(expr), i as int) == Some(a@),
                Err(e) => sp_attr_tail(s@, opt_view(expr), i as int) is None && e is Syntax,
            },
    {
        if i == s.len() {
            Ok(ImplDefault { expr, where_clause: None, span: 0 })
        } else if tok_is_kw(&s[i], "where") {
            match where_end(s, i + 1, 0) {
                None => Err(Error::Syntax(i)),
                Some(w) => {
                    proof {
                        crate::parse::lemma_sp_where_range(s@, (i + 1) as int, 0);
                    }
                    if w == s.len() {
                        Ok(
                            ImplDefault {
                                expr,
                                where_clause: Some(copy_range(s, i, w)),
                                span: 0,
                            },
                        )
                    } else {
                        Err(Error::Syntax(w))
                    }
                },
            }
        } else {
            Err(Error::Syntax(i))
        }
    }
}

/// The where-clause the emitted implementation carries: the one given
/// at the invocation site when present, else the declaration's own.
pub open spec fn sp_merged_wc(aw: Option<Seq<Tok>>, iw: Option<Seq<Tok>>) -> Seq<TokV> {
    match aw {
        Some(w) => toks_dv(w),
        None => match iw {
            Some(w) => toks_dv(w),
            None => Seq::<TokV>::empty(),
        },
    }
}

/// `impl <generics> std :: default :: Default for <name> <generics> <where>`
pub open spec fn sp_impl_header(
    ig: Seq<TokV>,
    name: Seq<char>,
    tg: Seq<TokV>,
    wc: Seq<TokV>,
) -> Seq<TokV> {
    seq![TokV::Ident("impl"@)] + ig + seq![
        TokV::Ident("std"@),
        TokV::Punct(':'),
        TokV::Punct(':'),
        TokV::Ident("default"@),
        TokV::Punct(':'),
        TokV::Punct(':'),
        TokV::Ident("Default"@),
        TokV::Ident("for"@),
        TokV::Ident(name),
    ] + tg + wc
}

/// A whole default-construction implementation fragment with the
/// given function body.
pub open spec fn sp_default_impl(
    ig: Seq<TokV>,
    name: Seq<char>,
    tg: Seq<TokV>,
    wc: Seq<TokV>,
    body: Seq<TokV>,
) -> Seq<TokV> {
    sp_impl_header(ig, name, tg, wc) + seq![TokV::Open(Delim::Brace)] + sp_dflt_prefix() + body
        + seq![TokV::Close(Delim::Brace), TokV::Close(Delim::Brace)]
}

/// The value one field takes in the per-field path: its attached
/// default-value expression when one was parsed, else the type's
/// generic default.
pub open spec fn sp_dfe_expr(f: FieldV) -> Seq<TokV> {
    match f.assign {
        Some(e) => toks_dv(e),
        None => sp_default_call(),
    }
}

pub open spec fn sp_dfe_named_list(fs: Seq<FieldV>) -> Seq<TokV>
    decreases fs.len(),
{
    if fs.len() == 0 {
        Seq::<TokV>::empty()
    } else if fs.len() == 1 {
        seq![TokV::Ident(fs[0].ident->0@), TokV::Punct(':')] + sp_dfe_expr(fs[0])
    } else {
        seq![TokV::Ident(fs[0].ident->0@), TokV::Punct(':')] + sp_dfe_expr(fs[0]) + seq![
            TokV::Punct(','),
        ] + sp_dfe_named_list(fs.drop_first())
    }
}

pub open spec fn sp_dfe_unnamed_list(fs: Seq<FieldV>) -> Seq<TokV>
    decreases fs.len(),
{
    if fs.len() == 0 {
        Seq::<TokV>::empty()
    } else if fs.len() == 1 {
        sp_dfe_expr(fs[0])
    } else {
        sp_dfe_expr(fs[0]) + seq![TokV::Punct(',')] + sp_dfe_unnamed_list(fs.drop_first())
    }
}

/// The per-field default constructor: named initializers for named
/// records, positional initializers for positional records, the bare
/// identifier for unit records.
pub open spec fn sp_dfe_ctor(name: Seq<char>, fields: FieldsV) -> Seq<TokV> {
    match fields {
        FieldsV::Named(f) => seq![TokV::Ident(name), TokV::Open(Delim::Brace)]
            + sp_dfe_named_list(f.fields) + seq![TokV::Close(Delim::Brace)],
        FieldsV::Unnamed(f) => seq![TokV::Ident(name), TokV::Open(Delim::Paren)]
            + sp_dfe_unnamed_list(f.fields) + seq![TokV::Close(Delim::Paren)],
        FieldsV::Unit => seq![TokV::Ident(name)],
    }
}

fn push_dfe_expr(out: &mut Vec<Tok>, f: &Field)
    ensures
        toks_dv(final(out)@) == toks_dv(old(out)@) + sp_dfe_expr(f@),
{
    match &f.assign {
        Some(e) => {
            append_copy(out, e);
            proof {
                crate::tokens::lemma_toks_dv_concat(old(out)@, e@);
            }
        },
        None => {
            crate::autoimpl::push_default_call(out);
        },
    }
}

fn dfe_named_from(fields: &Vec<Field>, idx: usize, out: &mut Vec<Tok>)
    requires
        idx <= fields@.len(),
        crate::fields::fields_list_wf(fields.deep_view(), true),
    ensures
        toks_dv(final(out)@) == toks_dv(old(out)@) + sp_dfe_named_list(
            fields.deep_view().skip(idx as int),
        ),
    decreases fields@.len() - idx,
{
    let ghost fs = fields.deep_view().skip(idx as int);
    if idx >= fields.len() {
        proof {
            assert(toks_dv(final(out)@) =~= toks_dv(old(out)@) + sp_dfe_named_list(fs));
        }
        return ;
    }
    proof {
        assert(crate::fields::field_wf(fields.deep_view()[idx as int], true));
    }
    match &fields[idx].ident {
        Some(id) => {
            push_tok(out, Tok::Ident(id.clone()));
            push_p(out, ':');
            push_dfe_expr(out, &fields[idx]);
            if idx + 1 == fields.len() {
                proof {
                    assert(fs.len() == 1);
                    assert(toks_dv(final(out)@) =~= toks_dv(old(out)@) + sp_dfe_named_list(fs));
                }
            } else {
                push_p(out, ',');
                dfe_named_from(fields, idx + 1, out);
                proof {
                    assert(fields.deep_view().skip(idx + 1 as int) =~= fs.drop_first());
                    assert(toks_dv(final(out)@) =~= toks_dv(old(out)@) + sp_dfe_named_list(fs));
                }
            }
        },
        None => {
            proof {
                assert(false);
            }
        },
    }
}

fn dfe_unnamed_from(fields: &Vec<Field>, idx: usize, out: &mut Vec<Tok>)
    requires
        idx <= fields@.len(),
    ensures
        toks_dv(final(out)@) == toks_dv(old(out)@) + sp_dfe_unnamed_list(
            fields.deep_view().skip(idx as int),
        ),
    decreases fields@.len() - idx,
{
    let ghost fs = fields.deep_view().skip(idx as int);
    if idx >= fields.len() {
        proof {
            assert(toks_dv(final(out)@) =~= toks_dv(old(out)@) + sp_dfe_unnamed_list(fs));
        }
        return ;
    }
    push_dfe_expr(out, &fields[idx]);
    if idx + 1 == fields.len() {
        proof {
            assert(fs.len() == 1);
            assert(toks_dv(final(out)@) =~= toks_dv(old(out)@) + sp_dfe_unnamed_list(fs));
        }
    } else {
        push_p(out, ',');
        dfe_unnamed_from(fields, idx + 1, out);
        proof {
            assert(fields.deep_view().skip(idx + 1 as int) =~= fs.drop_first());
            assert(toks_dv(final(out)@) =~= toks_dv(old(out)@) + sp_dfe_unnamed_list(fs));
        }
    }
}

fn push_impl_header(
    out: &mut Vec<Tok>,
    name: &String,
    ig: &Vec<Tok>,
    tg: &Vec<Tok>,
    awc: &Option<Vec<Tok>>,
    iwc: &Option<Vec<Tok>>,
)
    ensures
        toks_dv(final(out)@) == toks_dv(old(out)@) + sp_impl_header(
            toks_dv(ig@),
            name@,
            toks_dv(tg@),
            sp_merged_wc(opt_view(*awc), opt_view(*iwc)),
        ),
{
    push_id(out, "impl");
    let ghost s1 = out@;
    append_copy(out, ig);
    proof {
        crate::tokens::lemma_toks_dv_concat(s1, ig@);
    }
    push_id(out, "std");
    push_p(out, ':');
    push_p(out, ':');
    push_id(out, "default");
    push_p(out, ':');
    push_p(out, ':');
    push_id(out, "Default");
    push_id(out, "for");
    push_tok(out, Tok::Ident(name.clone()));
    let ghost s2 = out@;
    append_copy(out, tg);
    proof {
        crate::tokens::lemma_toks_dv_concat(s2, tg@);
    }
    let ghost s3 = out@;
    match awc {
        Some(w) => {
            append_copy(out, w);
            proof {
                crate::tokens::lemma_toks_dv_concat(s3, w@);
            }
        },
        None => match iwc {
            Some(w) => {
                append_copy(out, w);
                proof {
                    crate::tokens::lemma_toks_dv_concat(s3, w@);
                }
            },
            None => {},
        },
    }
    proof {
        assert(toks_dv(final(out)@) =~= toks_dv(old(out)@) + sp_impl_header(
            toks_dv(ig@),
            name@,
            toks_dv(tg@),
            sp_merged_wc(opt_view(*awc), opt_view(*iwc)),
        ));
    }
}

/// The kind of an externally-parsed item handed to `expand`.
pub enum ItemKind {
    Record,
    Enumeration,
    TypeAlias,
    Union,
    Other,
}

/// An externally-parsed item: its kind, identity and opaque generic
/// runs, as the surrounding collaborator supplies them.
pub struct ParsedItem {
    pub kind: ItemKind,
    pub ident: String,
    pub impl_generics: Vec<Tok>,
    pub ty_generics: Vec<Tok>,
    pub where_clause: Option<Vec<Tok>>,
}

/// Whether `expand` accepts this item kind.
pub open spec fn kind_supported(k: ItemKind) -> bool {
    !(k is Other)
}

impl ImplDefault {
    /// Emit the implementation whose body is the explicit expression.
    pub fn gen_expr(&self, name: &String, ig: &Vec<Tok>, tg: &Vec<Tok>, iwc: &Option<Vec<Tok>>) -> (r: Vec<
        Tok,
    >)
        requires
            self.expr is Some,
        ensures
            toks_dv(r@) == sp_default_impl(
                toks_dv(ig@),
                name@,
                toks_dv(tg@),
                sp_merged_wc(self@.where_clause, opt_view(*iwc)),
                toks_dv(self.expr->0@),
            ),
    {
        let mut out: Vec<Tok> = Vec::new();
        push_impl_header(&mut out, name, ig, tg, &self.where_clause, iwc);
        push_open(&mut out, Delim::Brace);
        push_id(&mut out, "fn");
        push_id(&mut out, "default");
        push_open(&mut out, Delim::Paren);
        push_close(&mut out, Delim::Paren);
        push_p(&mut out, '-');
        push_p(&mut out, '>');
        push_id(&mut out, "Self");
        push_open(&mut out, Delim::Brace);
        match &self.expr {
            Some(e) => {
                let ghost pre = out@;
                append_copy(&mut out, e);
                proof {
                    crate::tokens::lemma_toks_dv_concat(pre, e@);
                }
            },
            None => {
                proof {
                    assert(false);
                }
            },
        }
        push_close(&mut out, Delim::Brace);
        push_close(&mut out, Delim::Brace);
        proof {
            assert(toks_dv(out@) =~= sp_default_impl(
                toks_dv(ig@),
                name@,
                toks_dv(tg@),
                sp_merged_wc(self@.where_clause, opt_view(*iwc)),
                toks_dv(self.expr->0@),
            ));
        }
        out
    }

    /// Expand over an externally-parsed item.  Succeeds exactly when
    /// an explicit expression was given and the item is a record,
    /// enumeration, type-alias or union; with no expression this is a
    /// use outside the declaration context that could supply one.
    pub fn expand(&self, item: &ParsedItem) -> (r: Result<Vec<Tok>, Error>)
        ensures
            r is Ok <==> (self.expr is Some && kind_supported(item.kind)),
            match r {
                Ok(v) => toks_dv(v@) == sp_default_impl(
                    toks_dv(item.impl_generics@),
                    item.ident@,
                    toks_dv(item.ty_generics@),
                    sp_merged_wc(self@.where_clause, opt_view(item.where_clause)),
                    toks_dv(self.expr->0@),
                ),
                Err(e) => if self.expr is None {
                    e == Error::MissingContext(self.span)
                } else {
                    e == Error::UnsupportedItemKind(self.span)
                },
            },
    {
        match &self.expr {
            None => Err(Error::MissingContext(self.span)),
            Some(_) => {
                match &item.kind {
                    ItemKind::Other => Err(Error::UnsupportedItemKind(self.span)),
                    _ => Ok(
                        self.gen_expr(
                            &item.ident,
                            &item.impl_generics,
                            &item.ty_generics,
                            &item.where_clause,
                        ),
                    ),
                }
            },
        }
    }
}

/// Copy a token run.
fn copy_toks(v: &Vec<Tok>) -> (r: Vec<Tok>)
    ensures
        r@ == v@,
{
    let r = copy_range(v, 0, v.len());
    proof {
        assert(v@.subrange(0, v@.len() as int) =~= v@);
    }
    r
}

fn copy_field_stripped(f: &Field) -> (r: Field)
    ensures
        r@ == field_stripped(f@),
{
    Field {
        attrs: copy_toks(&f.attrs),
        vis: copy_toks(&f.vis),
        ident: match &f.ident {
            Some(id) => Some(id.clone()),
            None => None,
        },
        ty: copy_toks(&f.ty),
        assign: None,
    }
}

fn strip_fields_vec(src: &Vec<Field>) -> (r: Vec<Field>)
    ensures
        r.deep_view() == strip_list(src.deep_view()),
{
    let mut r: Vec<Field> = Vec::new();
    let mut i: usize = 0;
    while i < src.len()
        invariant
            i <= src@.len(),
            r@.len() == i,
            forall|k: int| 0 <= k < i ==> r@[k]@ == field_stripped(src.deep_view()[k]),
        decreases src@.len() - i,
    {
        r.push(copy_field_stripped(&src[i]));
        i += 1;
    }
    proof {
        assert forall|k: int| 0 <= k < r.deep_view().len() implies r.deep_view()[k] == strip_list(
            src.deep_view(),
        )[k] by {
            assert(r.deep_view()[k] == r@[k]@);
        }
        assert(r.deep_view() =~= strip_list(src.deep_view()));
    }
    r
}

/// The field-list variant with every default-value expression
/// discharged.
pub open spec fn sp_fields_stripped(fs: FieldsV) -> FieldsV {
    match fs {
        FieldsV::Named(f) => FieldsV::Named(
            crate::fields::FieldsNamedV {
                fields: strip_list(f.fields),
                trailing_comma: f.trailing_comma,
            },
        ),
        FieldsV::Unnamed(f) => FieldsV::Unnamed(
            crate::fields::FieldsUnnamedV {
                fields: strip_list(f.fields),
                trailing_comma: f.trailing_comma,
            },
        ),
        FieldsV::Unit => FieldsV::Unit,
    }
}

fn strip_fields(f: &Fields) -> (r: Fields)
    ensures
        r@ == sp_fields_stripped(f@),
{
    match f {
        Fields::Named(x) => Fields::Named(
            FieldsNamed { fields: strip_fields_vec(&x.fields), trailing_comma: x.trailing_comma },
        ),
        Fields::Unnamed(x) => Fields::Unnamed(
            FieldsUnnamed { fields: strip_fields_vec(&x.fields), trailing_comma: x.trailing_comma },
        ),
        Fields::Unit => Fields::Unit,
    }
}

/// The item a declaration scope holds: a record with its field list,
/// or anything else.
pub enum ScopeItem {
    Struct(Fields),
    Other,
}

/// One aggregated declaration as the external scope collaborator
/// hands it over: identity, opaque generic runs, the item, and the
/// fragments generated for it so far.
pub struct Scope {
    pub ident: String,
    pub impl_generics: Vec<Tok>,
    pub ty_generics: Vec<Tok>,
    pub where_clause: Option<Vec<Tok>>,
    pub item: ScopeItem,
    pub generated: Vec<Vec<Tok>>,
}

/// One fragment was appended to the generated list and nothing else
/// changed in it.
pub open spec fn pushed_fragment(
    oldg: Seq<Vec<Tok>>,
    newg: Seq<Vec<Tok>>,
    frag: Seq<TokV>,
) -> bool {
    &&& newg.len() == oldg.len() + 1
    &&& forall|k: int| 0 <= k < oldg.len() ==> newg[k] == oldg[k]
    &&& toks_dv(newg.last()@) == frag
}

/// Handle one default-construction invocation against a declaration
/// scope.  An explicit expression is emitted verbatim as the function
/// body, whatever the field list holds; otherwise each field takes
/// its attached default-value expression — which this call consumes —
/// or the type's generic default.  Without an expression, an item
/// that has no field list is rejected.
pub fn impl_default(attr: ImplDefault, attr_span: usize, scope: &mut Scope) -> (r: Result<
    (),
    Error,
>)
    requires
        match old(scope).item {
            ScopeItem::Struct(f) => crate::fields::fields_wf(f@),
            ScopeItem::Other => true,
        },
    ensures
        final(scope).ident == old(scope).ident,
        final(scope).impl_generics == old(scope).impl_generics,
        final(scope).ty_generics == old(scope).ty_generics,
        final(scope).where_clause == old(scope).where_clause,
        match attr@.expr {
            Some(e) => r is Ok && final(scope).item == old(scope).item && pushed_fragment(
                old(scope).generated@,
                final(scope).generated@,
                sp_default_impl(
                    toks_dv(old(scope).impl_generics@),
                    old(scope).ident@,
                    toks_dv(old(scope).ty_generics@),
                    sp_merged_wc(attr@.where_clause, opt_view(old(scope).where_clause)),
                    toks_dv(e),
                ),
            ),
            None => match old(scope).item {
                ScopeItem::Struct(f) => {
                    &&& r is Ok
                    &&& (match final(scope).item {
                        ScopeItem::Struct(g) => g@ == sp_fields_stripped(f@),
                        ScopeItem::Other => false,
                    })
                    &&& pushed_fragment(
                        old(scope).generated@,
                        final(scope).generated@,
                        sp_default_impl(
                            toks_dv(old(scope).impl_generics@),
                            old(scope).ident@,
                            toks_dv(old(scope).ty_generics@),
                            sp_merged_wc(attr@.where_clause, opt_view(old(scope).where_clause)),
                            sp_dfe_ctor(old(scope).ident@, f@),
                        ),
                    )
                },
                ScopeItem::Other => {
                    &&& r == Err::<(), Error>(Error::UnsupportedItemKind(attr_span))
                    &&& final(scope).item == old(scope).item
                    &&& final(scope).generated == old(scope).generated
                },
            },
        },
{
    match &attr.expr {
        Some(_) => {
            let frag = attr.gen_expr(
                &scope.ident,
                &scope.impl_generics,
                &scope.ty_generics,
                &scope.where_clause,
            );
            scope.generated.push(frag);
            Ok(())
        },
        None => {
            match &scope.item {
                ScopeItem::Struct(f) => {
                    let mut out: Vec<Tok> = Vec::new();
                    push_impl_header(
                        &mut out,
                        &scope.ident,
                        &scope.impl_generics,
                        &scope.ty_generics,
                        &attr.where_clause,
                        &scope.where_clause,
                    );
                    push_open(&mut out, Delim::Brace);
                    push_id(&mut out, "fn");
                    push_id(&mut out, "default");
                    push_open(&mut out, Delim::Paren);
                    push_close(&mut out, Delim::Paren);
                    push_p(&mut out, '-');
                    push_p(&mut out, '>');
                    push_id(&mut out, "Self");
                    push_open(&mut out, Delim::Brace);
                    let ghost pre = toks_dv(out@);
                    match f {
                        Fields::Named(x) => {
                            push_tok(&mut out, Tok::Ident(scope.ident.clone()));
                            push_open(&mut out, Delim::Brace);
                            dfe_named_from(&x.fields, 0, &mut out);
                            push_close(&mut out, Delim::Brace);
                            proof {
                                assert(x.fields.deep_view().skip(0) =~= x.fields.deep_view());
                                assert(toks_dv(out@) =~= pre + sp_dfe_ctor(
                                    old(scope).ident@,
                                    f@,
                                ));
                            }
                        },
                        Fields::Unnamed(x) => {
                            push_tok(&mut out, Tok::Ident(scope.ident.clone()));
                            push_open(&mut out, Delim::Paren);
                            dfe_unnamed_from(&x.fields, 0, &mut out);
                            push_close(&mut out, Delim::Paren);
                            proof {
                                assert(x.fields.deep_view().skip(0) =~= x.fields.deep_view());
                                assert(toks_dv(out@) =~= pre + sp_dfe_ctor(
                                    old(scope).ident@,
                                    f@,
                                ));
                            }
                        },
                        Fields::Unit => {
                            push_tok(&mut out, Tok::Ident(scope.ident.clone()));
                            proof {
                                assert(toks_dv(out@) =~= pre + sp_dfe_ctor(
                                    old(scope).ident@,
                                    f@,
                                ));
                            }
                        },
                    }
                    push_close(&mut out, Delim::Brace);
                    push_close(&mut out, Delim::Brace);
                    proof {
                        assert(toks_dv(out@) =~= sp_default_impl(
                            toks_dv(old(scope).impl_generics@),
                            old(scope).ident@,
                            toks_dv(old(scope).ty_generics@),
                            sp_merged_wc(attr@.where_clause, opt_view(old(scope).where_clause)),
                            sp_dfe_ctor(old(scope).ident@, f@),
                        ));
                    }
                    let stripped = strip_fields(f);
                    scope.item = ScopeItem::Struct(stripped);
                    scope.generated.push(out);
                    Ok(())
                },
                ScopeItem::Other => Err(Error::UnsupportedItemKind(attr_span)),
            }
        },
    }
}

/// An explicit default expression is embedded verbatim as the emitted
/// function body: the fragment's body slice is exactly the
/// expression, and no field of the declaration takes any part in the
/// fragment.
pub proof fn lemma_explicit_expr_verbatim(
    ig: Seq<TokV>,
    name: Seq<char>,
    tg: Seq<TokV>,
    wc: Seq<TokV>,
    body: Seq<TokV>,
)
    ensures
        sp_default_impl(ig, name, tg, wc, body).subrange(
            sp_impl_header(ig, name, tg, wc).len() + 1 + sp_dflt_prefix().len() as int,
            sp_impl_header(ig, name, tg, wc).len() + 1 + sp_dflt_prefix().len() + body.len() as int,
        ) == body,
{
    assert(sp_default_impl(ig, name, tg, wc, body).subrange(
        sp_impl_header(ig, name, tg, wc).len() + 1 + sp_dflt_prefix().len() as int,
        sp_impl_header(ig, name, tg, wc).len() + 1 + sp_dflt_prefix().len() + body.len() as int,
    ) =~= body);
}

} // verus!
