//! The built-in capability generators.  Each is identified by a
//! fully-qualified path, declares which per-field modifiers it
//! supports, and renders one implementation-function fragment from the
//! record's field layout and the resolved modifier set.

use vstd::prelude::*;

use crate::errors::Error;
use crate::fields::{
    field_wf, fields_list_wf, fields_wf, Field, Fields, FieldsV, TypeDescriptor, TypeDescriptorV,
};
use crate::modifiers::{set_ignores_named, set_ignores_unnamed, FieldIdent, ModifierSet};
use crate::tokens::{
    dec_str, push_close, push_id, push_open, push_p, push_tok, quoted, quoted_text, toks_dv,
    usize_dec, Delim, Tok, TokV,
};
use crate::SimplePath;

verus! {

/// Append an identifier token carrying the given name.
fn push_id_string(out: &mut Vec<Tok>, s: &String)
    ensures
        toks_dv(final(out)@) == toks_dv(old(out)@).push(TokV::Ident(s@)),
{
    push_tok(out, Tok::Ident(s.clone()));
}

/// `Default :: default ( )`
pub open spec fn sp_default_call() -> Seq<TokV> {
    seq![
        TokV::Ident("Default"@),
        TokV::Punct(':'),
        TokV::Punct(':'),
        TokV::Ident("default"@),
        TokV::Open(Delim::Paren),
        TokV::Close(Delim::Paren),
    ]
}

pub(crate) fn push_default_call(out: &mut Vec<Tok>)
    ensures
        toks_dv(final(out)@) == toks_dv(old(out)@) + sp_default_call(),
{
    push_id(out, "Default");
    push_p(out, ':');
    push_p(out, ':');
    push_id(out, "default");
    push_open(out, Delim::Paren);
    push_close(out, Delim::Paren);
    proof {
        assert(toks_dv(final(out)@) =~= toks_dv(old(out)@) + sp_default_call());
    }
}

/// `. clone ( )`
pub open spec fn sp_clone_suffix() -> Seq<TokV> {
    seq![
        TokV::Punct('.'),
        TokV::Ident("clone"@),
        TokV::Open(Delim::Paren),
        TokV::Close(Delim::Paren),
    ]
}

/// One named-field initializer of the copy fragment: the field's own
/// value cloned, or its type's default value when ignored.
pub open spec fn sp_clone_field_named(name: Seq<char>, ig: Seq<FieldIdent>) -> Seq<TokV> {
    seq![TokV::Ident(name), TokV::Punct(':')] + (if set_ignores_named(ig, name) {
        sp_default_call()
    } else {
        seq![TokV::Ident("self"@), TokV::Punct('.'), TokV::Ident(name)] + sp_clone_suffix()
    }) + seq![TokV::Punct(',')]
}

pub open spec fn sp_clone_named_list(fs: Seq<crate::fields::FieldV>, ig: Seq<FieldIdent>) -> Seq<
    TokV,
>
    decreases fs.len(),
{
    if fs.len() == 0 {
        Seq::<TokV>::empty()
    } else {
        sp_clone_field_named(fs[0].ident->0@, ig) + sp_clone_named_list(fs.drop_first(), ig)
    }
}

/// One positional-field initializer of the copy fragment.
pub open spec fn sp_clone_field_unnamed(i: nat, ig: Seq<FieldIdent>) -> Seq<TokV> {
    (if set_ignores_unnamed(ig, i as int) {
        sp_default_call()
    } else {
        seq![TokV::Ident("self"@), TokV::Punct('.'), TokV::Lit(dec_str(i))] + sp_clone_suffix()
    }) + seq![TokV::Punct(',')]
}

pub open spec fn sp_clone_unnamed_list(n: nat, i: nat, ig: Seq<FieldIdent>) -> Seq<TokV>
    decreases n - i,
{
    if i >= n {
        Seq::<TokV>::empty()
    } else {
        sp_clone_field_unnamed(i, ig) + sp_clone_unnamed_list(n, i + 1, ig)
    }
}

/// The constructed value of the copy fragment.
pub open spec fn sp_clone_inner(d: TypeDescriptorV, ig: Seq<FieldIdent>) -> Seq<TokV> {
    match d.fields {
        FieldsV::Named(f) => seq![TokV::Ident(d.ident@), TokV::Open(Delim::Brace)]
            + sp_clone_named_list(f.fields, ig) + seq![TokV::Close(Delim::Brace)],
        FieldsV::Unnamed(f) => seq![TokV::Ident(d.ident@), TokV::Open(Delim::Paren)]
            + sp_clone_unnamed_list(f.fields.len(), 0, ig) + seq![TokV::Close(Delim::Paren)],
        FieldsV::Unit => seq![TokV::Ident(d.ident@)],
    }
}

/// `fn clone ( & self ) -> Self {`
pub open spec fn sp_clone_prefix() -> Seq<TokV> {
    seq![
        TokV::Ident("fn"@),
        TokV::Ident("clone"@),
        TokV::Open(Delim::Paren),
        TokV::Punct('&'),
        TokV::Ident("self"@),
        TokV::Close(Delim::Paren),
        TokV::Punct('-'),
        TokV::Punct('>'),
        TokV::Ident("Self"@),
        TokV::Open(Delim::Brace),
    ]
}

/// The whole copy-capability fragment.
pub open spec fn sp_clone_fragment(d: TypeDescriptorV, ig: Seq<FieldIdent>) -> Seq<TokV> {
    sp_clone_prefix() + sp_clone_inner(d, ig) + seq![TokV::Close(Delim::Brace)]
}

fn clone_named_from(fields: &Vec<Field>, idx: usize, args: &ModifierSet, out: &mut Vec<Tok>)
    requires
        idx <= fields@.len(),
        fields_list_wf(fields.deep_view(), true),
    ensures
        toks_dv(final(out)@) == toks_dv(old(out)@) + sp_clone_named_list(
            fields.deep_view().skip(idx as int),
            args.ignored@,
        ),
    decreases fields@.len() - idx,
{
    let ghost fs = fields.deep_view().skip(idx as int);
    if idx >= fields.len() {
        proof {
            assert(toks_dv(final(out)@) =~= toks_dv(old(out)@) + sp_clone_named_list(
                fs,
                args.ignored@,
            ));
        }
        return ;
    }
    proof {
        assert(field_wf(fields.deep_view()[idx as int], true));
    }
    match &fields[idx].ident {
        Some(id) => {
            push_id_string(out, id);
            push_p(out, ':');
            if args.ignore_named(id) {
                push_default_call(out);
            } else {
                push_id(out, "self");
                push_p(out, '.');
                push_id_string(out, id);
                push_p(out, '.');
                push_id(out, "clone");
                push_open(out, Delim::Paren);
                push_close(out, Delim::Paren);
            }
            push_p(out, ',');
            let ghost mid = toks_dv(out@);
            proof {
                assert(mid =~= toks_dv(old(out)@) + sp_clone_field_named(
                    fs[0].ident->0@,
                    args.ignored@,
                ));
            }
            clone_named_from(fields, idx + 1, args, out);
            proof {
                assert(fields.deep_view().skip(idx + 1 as int) =~= fs.drop_first());
                assert(toks_dv(final(out)@) =~= toks_dv(old(out)@) + sp_clone_named_list(
                    fs,
                    args.ignored@,
                ));
            }
        },
        None => {
            proof {
                assert(false);
            }
        },
    }
}

fn clone_unnamed_from(n: usize, idx: usize, args: &ModifierSet, out: &mut Vec<Tok>)
    requires
        idx <= n,
    ensures
        toks_dv(final(out)@) == toks_dv(old(out)@) + sp_clone_unnamed_list(
            n as nat,
            idx as nat,
            args.ignored@,
        ),
    decreases n - idx,
{
    if idx >= n {
        proof {
            assert(toks_dv(final(out)@) =~= toks_dv(old(out)@) + sp_clone_unnamed_list(
                n as nat,
                idx as nat,
                args.ignored@,
            ));
        }
        return ;
    }
    if args.ignore_unnamed(idx) {
        push_default_call(out);
    } else {
        push_id(out, "self");
        push_p(out, '.');
        push_tok(out, Tok::Lit(usize_dec(idx)));
        push_p(out, '.');
        push_id(out, "clone");
        push_open(out, Delim::Paren);
        push_close(out, Delim::Paren);
    }
    push_p(out, ',');
    let ghost mid = toks_dv(out@);
    proof {
        assert(mid =~= toks_dv(old(out)@) + sp_clone_field_unnamed(idx as nat, args.ignored@));
    }
    clone_unnamed_from(n, idx + 1, args, out);
    proof {
        assert(toks_dv(final(out)@) =~= toks_dv(old(out)@) + sp_clone_unnamed_list(
            n as nat,
            idx as nat,
            args.ignored@,
        ));
    }
}

/// The copy capability: an equality-preserving copy of the record,
/// with ignored fields replaced by their type's default value.
pub struct ImplClone;

impl ImplClone {
    /// The capability's fully-qualified name.
    pub fn path(&self) -> (r: SimplePath)
        ensures
            r.view_segments() == seq![""@, "core"@, "clone"@, "Clone"@],
    {
        let r = SimplePath::new(&["", "core", "clone", "Clone"]);
        proof {
            assert(r.view_segments() =~= seq![""@, "core"@, "clone"@, "Clone"@]);
        }
        r
    }

    /// The copy capability honors `ignore`.
    pub fn support_ignore(&self) -> (r: bool)
        ensures
            r == true,
    {
        true
    }

    /// The copy capability does not delegate.
    pub fn support_using(&self) -> (r: bool)
        ensures
            r == false,
    {
        false
    }

    /// Render the copy fragment for one record declaration.
    pub fn struct_items(&self, item: &TypeDescriptor, args: &ModifierSet) -> (r: Result<
        Vec<Tok>,
        Error,
    >)
        requires
            fields_wf(item@.fields),
        ensures
            r matches Ok(v) && toks_dv(v@) == sp_clone_fragment(item@, args.ignored@),
    {
        let mut out: Vec<Tok> = Vec::new();
        push_id(&mut out, "fn");
        push_id(&mut out, "clone");
        push_open(&mut out, Delim::Paren);
        push_p(&mut out, '&');
        push_id(&mut out, "self");
        push_close(&mut out, Delim::Paren);
        push_p(&mut out, '-');
        push_p(&mut out, '>');
        push_id(&mut out, "Self");
        push_open(&mut out, Delim::Brace);
        proof {
            assert(toks_dv(out@) =~= sp_clone_prefix());
        }
        match &item.fields {
            Fields::Named(fx) => {
                push_id_string(&mut out, &item.ident);
                push_open(&mut out, Delim::Brace);
                clone_named_from(&fx.fields, 0, args, &mut out);
                push_close(&mut out, Delim::Brace);
                proof {
                    assert(fx.fields.deep_view().skip(0) =~= fx.fields.deep_view());
                    assert(toks_dv(out@) =~= sp_clone_prefix() + sp_clone_inner(
                        item@,
                        args.ignored@,
                    ));
                }
            },
            Fields::Unnamed(fx) => {
                push_id_string(&mut out, &item.ident);
                push_open(&mut out, Delim::Paren);
                clone_unnamed_from(fx.fields.len(), 0, args, &mut out);
                push_close(&mut out, Delim::Paren);
                proof {
                    assert(toks_dv(out@) =~= sp_clone_prefix() + sp_clone_inner(
                        item@,
                        args.ignored@,
                    ));
                }
            },
            Fields::Unit => {
                push_id_string(&mut out, &item.ident);
                proof {
                    assert(toks_dv(out@) =~= sp_clone_prefix() + sp_clone_inner(
                        item@,
                        args.ignored@,
                    ));
                }
            },
        }
        push_close(&mut out, Delim::Brace);
        proof {
            assert(toks_dv(out@) =~= sp_clone_fragment(item@, args.ignored@));
        }
        Ok(out)
    }
}

/// Whether some named field of the list is marked ignored.
pub open spec fn sp_any_ignored_named(fs: Seq<crate::fields::FieldV>, ig: Seq<FieldIdent>) -> bool {
    exists|q: int| 0 <= q < fs.len() && set_ignores_named(ig, (#[trigger] fs[q]).ident->0@)
}

proof fn lemma_any_ignored_cons(fs: Seq<crate::fields::FieldV>, ig: Seq<FieldIdent>)
    requires
        fs.len() >= 1,
    ensures
        sp_any_ignored_named(fs, ig) == (set_ignores_named(ig, fs[0].ident->0@)
            || sp_any_ignored_named(fs.drop_first(), ig)),
{
    if set_ignores_named(ig, fs[0].ident->0@) {
        assert(sp_any_ignored_named(fs, ig));
    }
    if sp_any_ignored_named(fs.drop_first(), ig) {
        let q = choose|q: int|
            0 <= q < fs.drop_first().len() && set_ignores_named(
                ig,
                (#[trigger] fs.drop_first()[q]).ident->0@,
            );
        assert(fs[q + 1] == fs.drop_first()[q]);
        assert(sp_any_ignored_named(fs, ig));
    }
    if sp_any_ignored_named(fs, ig) {
        let q = choose|q: int|
            0 <= q < fs.len() && set_ignores_named(ig, (#[trigger] fs[q]).ident->0@);
        if q != 0 {
            assert(fs.drop_first()[q - 1] == fs[q]);
            assert(sp_any_ignored_named(fs.drop_first(), ig));
        }
    }
}

/// One named-field entry of the debug fragment; ignored fields add no
/// entry.
pub open spec fn sp_debug_entry_named(name: Seq<char>, ig: Seq<FieldIdent>) -> Seq<TokV> {
    if set_ignores_named(ig, name) {
        Seq::<TokV>::empty()
    } else {
        seq![
            TokV::Punct('.'),
            TokV::Ident("field"@),
            TokV::Open(Delim::Paren),
            TokV::Lit(quoted_text(name)),
            TokV::Punct(','),
            TokV::Punct('&'),
            TokV::Ident("self"@),
            TokV::Punct('.'),
            TokV::Ident(name),
            TokV::Close(Delim::Paren),
        ]
    }
}

pub open spec fn sp_debug_named_list(fs: Seq<crate::fields::FieldV>, ig: Seq<FieldIdent>) -> Seq<
    TokV,
>
    decreases fs.len(),
{
    if fs.len() == 0 {
        Seq::<TokV>::empty()
    } else {
        sp_debug_entry_named(fs[0].ident->0@, ig) + sp_debug_named_list(fs.drop_first(), ig)
    }
}

/// The final call of a named-field debug fragment: exhaustive when no
/// field was ignored, non-exhaustive as soon as any was.
pub open spec fn sp_debug_finish(exhaustive: bool) -> Seq<TokV> {
    seq![
        TokV::Punct('.'),
        if exhaustive {
            TokV::Ident("finish"@)
        } else {
            TokV::Ident("finish_non_exhaustive"@)
        },
        TokV::Open(Delim::Paren),
        TokV::Close(Delim::Paren),
    ]
}

/// One positional-field entry of the debug fragment: the field's
/// value, or a placeholder slot preserving the declared arity when
/// ignored.
pub open spec fn sp_debug_entry_unnamed(i: nat, ig: Seq<FieldIdent>) -> Seq<TokV> {
    seq![TokV::Punct('.'), TokV::Ident("field"@), TokV::Open(Delim::Paren), TokV::Punct('&')]
        + (if set_ignores_unnamed(ig, i as int) {
        seq![
            TokV::Ident("format_args"@),
            TokV::Punct('!'),
            TokV::Open(Delim::Paren),
            TokV::Lit(quoted_text("_"@)),
            TokV::Close(Delim::Paren),
        ]
    } else {
        seq![TokV::Ident("self"@), TokV::Punct('.'), TokV::Lit(dec_str(i))]
    }) + seq![TokV::Close(Delim::Paren)]
}

pub open spec fn sp_debug_unnamed_list(n: nat, i: nat, ig: Seq<FieldIdent>) -> Seq<TokV>
    decreases n - i,
{
    if i >= n {
        Seq::<TokV>::empty()
    } else {
        sp_debug_entry_unnamed(i, ig) + sp_debug_unnamed_list(n, i + 1, ig)
    }
}

/// `f . debug_struct ( "Name" )` / `f . debug_tuple ( "Name" )`
pub open spec fn sp_debug_open(method: Seq<char>, name: Seq<char>) -> Seq<TokV> {
    seq![
        TokV::Ident("f"@),
        TokV::Punct('.'),
        TokV::Ident(method),
        TokV::Open(Delim::Paren),
        TokV::Lit(quoted_text(name)),
        TokV::Close(Delim::Paren),
    ]
}

/// The formatter body of the debug fragment.
pub open spec fn sp_debug_inner(d: TypeDescriptorV, ig: Seq<FieldIdent>) -> Seq<TokV> {
    match d.fields {
        FieldsV::Named(f) => sp_debug_open("debug_struct"@, d.ident@) + sp_debug_named_list(
            f.fields,
            ig,
        ) + sp_debug_finish(!sp_any_ignored_named(f.fields, ig)),
        FieldsV::Unnamed(f) => sp_debug_open("debug_tuple"@, d.ident@) + sp_debug_unnamed_list(
            f.fields.len(),
            0,
            ig,
        ) + sp_debug_finish(true),
        FieldsV::Unit => seq![
            TokV::Ident("f"@),
            TokV::Punct('.'),
            TokV::Ident("write_str"@),
            TokV::Open(Delim::Paren),
            TokV::Lit(quoted_text(d.ident@)),
            TokV::Close(Delim::Paren),
        ],
    }
}

/// `fn fmt ( & self , f : & mut core :: fmt :: Formatter ) -> core :: fmt :: Result {`
pub open spec fn sp_debug_prefix() -> Seq<TokV> {
    seq![
        TokV::Ident("fn"@),
        TokV::Ident("fmt"@),
        TokV::Open(Delim::Paren),
        TokV::Punct('&'),
        TokV::Ident("self"@),
        TokV::Punct(','),
        TokV::Ident("f"@),
        TokV::Punct(':'),
        TokV::Punct('&'),
        TokV::Ident("mut"@),
        TokV::Ident("core"@),
        TokV::Punct(':'),
        TokV::Punct(':'),
        TokV::Ident("fmt"@),
        TokV::Punct(':'),
        TokV::Punct(':'),
        TokV::Ident("Formatter"@),
        TokV::Close(Delim::Paren),
        TokV::Punct('-'),
        TokV::Punct('>'),
        TokV::Ident("core"@),
        TokV::Punct(':'),
        TokV::Punct(':'),
        TokV::Ident("fmt"@),
        TokV::Punct(':'),
        TokV::Punct(':'),
        TokV::Ident("Result"@),
        TokV::Open(Delim::Brace),
    ]
}

/// The whole debug-formatting fragment.
pub open spec fn sp_debug_fragment(d: TypeDescriptorV, ig: Seq<FieldIdent>) -> Seq<TokV> {
    sp_debug_prefix() + sp_debug_inner(d, ig) + seq![TokV::Close(Delim::Brace)]
}

fn debug_named_from(fields: &Vec<Field>, idx: usize, args: &ModifierSet, out: &mut Vec<Tok>) -> (saw:
    bool)
    requires
        idx <= fields@.len(),
        fields_list_wf(fields.deep_view(), true),
    ensures
        toks_dv(final(out)@) == toks_dv(old(out)@) + sp_debug_named_list(
            fields.deep_view().skip(idx as int),
            args.ignored@,
        ),
        saw == sp_any_ignored_named(fields.deep_view().skip(idx as int), args.ignored@),
    decreases fields@.len() - idx,
{
    let ghost fs = fields.deep_view().skip(idx as int);
    if idx >= fields.len() {
        proof {
            assert(toks_dv(final(out)@) =~= toks_dv(old(out)@) + sp_debug_named_list(
                fs,
                args.ignored@,
            ));
        }
        return false;
    }
    proof {
        assert(field_wf(fields.deep_view()[idx as int], true));
        lemma_any_ignored_cons(fs, args.ignored@);
    }
    match &fields[idx].ident {
        Some(id) => {
            let here = args.ignore_named(id);
            if !here {
                push_p(out, '.');
                push_id(out, "field");
                push_open(out, Delim::Paren);
                push_tok(out, Tok::Lit(quoted(id.as_str())));
                push_p(out, ',');
                push_p(out, '&');
                push_id(out, "self");
                push_p(out, '.');
                push_id_string(out, id);
                push_close(out, Delim::Paren);
            }
            let ghost mid = toks_dv(out@);
            proof {
                assert(mid =~= toks_dv(old(out)@) + sp_debug_entry_named(
                    fs[0].ident->0@,
                    args.ignored@,
                ));
            }
            let rest = debug_named_from(fields, idx + 1, args, out);
            proof {
                assert(fields.deep_view().skip(idx + 1 as int) =~= fs.drop_first());
                assert(toks_dv(final(out)@) =~= toks_dv(old(out)@) + sp_debug_named_list(
                    fs,
                    args.ignored@,
                ));
            }
            here || rest
        },
        None => {
            proof {
                assert(false);
            }
            false
        },
    }
}

fn debug_unnamed_from(n: usize, idx: usize, args: &ModifierSet, out: &mut Vec<Tok>)
    requires
        idx <= n,
    ensures
        toks_dv(final(out)@) == toks_dv(old(out)@) + sp_debug_unnamed_list(
            n as nat,
            idx as nat,
            args.ignored@,
        ),
    decreases n - idx,
{
    if idx >= n {
        proof {
            assert(toks_dv(final(out)@) =~= toks_dv(old(out)@) + sp_debug_unnamed_list(
                n as nat,
                idx as nat,
                args.ignored@,
            ));
        }
        return ;
    }
    push_p(out, '.');
    push_id(out, "field");
    push_open(out, Delim::Paren);
    push_p(out, '&');
    if args.ignore_unnamed(idx) {
        push_id(out, "format_args");
        push_p(out, '!');
        push_open(out, Delim::Paren);
        push_tok(out, Tok::Lit(quoted("_")));
        push_close(out, Delim::Paren);
    } else {
        push_id(out, "self");
        push_p(out, '.');
        push_tok(out, Tok::Lit(usize_dec(idx)));
    }
    push_close(out, Delim::Paren);
    let ghost mid = toks_dv(out@);
    proof {
        assert(mid =~= toks_dv(old(out)@) + sp_debug_entry_unnamed(idx as nat, args.ignored@));
    }
    debug_unnamed_from(n, idx + 1, args, out);
    proof {
        assert(toks_dv(final(out)@) =~= toks_dv(old(out)@) + sp_debug_unnamed_list(
            n as nat,
            idx as nat,
            args.ignored@,
        ));
    }
}

fn push_debug_finish(out: &mut Vec<Tok>, exhaustive: bool)
    ensures
        toks_dv(final(out)@) == toks_dv(old(out)@) + sp_debug_finish(exhaustive),
{
    push_p(out, '.');
    if exhaustive {
        push_id(out, "finish");
    } else {
        push_id(out, "finish_non_exhaustive");
    }
    push_open(out, Delim::Paren);
    push_close(out, Delim::Paren);
    proof {
        assert(toks_dv(final(out)@) =~= toks_dv(old(out)@) + sp_debug_finish(exhaustive));
    }
}

fn push_debug_open(out: &mut Vec<Tok>, method: &str, name: &String)
    ensures
        toks_dv(final(out)@) == toks_dv(old(out)@) + sp_debug_open(method@, name@),
{
    push_id(out, "f");
    push_p(out, '.');
    push_id(out, method);
    push_open(out, Delim::Paren);
    push_tok(out, Tok::Lit(quoted(name.as_str())));
    push_close(out, Delim::Paren);
    proof {
        assert(toks_dv(final(out)@) =~= toks_dv(old(out)@) + sp_debug_open(method@, name@));
    }
}

/// The debug-formatting capability: a structured formatter fragment
/// that hides ignored fields, non-exhaustively for named records and
/// by placeholder slots for positional records.
pub struct ImplDebug;

impl ImplDebug {
    /// The capability's fully-qualified name.
    pub fn path(&self) -> (r: SimplePath)
        ensures
            r.view_segments() == seq![""@, "core"@, "fmt"@, "Debug"@],
    {
        let r = SimplePath::new(&["", "core", "fmt", "Debug"]);
        proof {
            assert(r.view_segments() =~= seq![""@, "core"@, "fmt"@, "Debug"@]);
        }
        r
    }

    /// The debug capability honors `ignore`.
    pub fn support_ignore(&self) -> (r: bool)
        ensures
            r == true,
    {
        true
    }

    /// The debug capability does not delegate.
    pub fn support_using(&self) -> (r: bool)
        ensures
            r == false,
    {
        false
    }

    /// Render the debug-formatting fragment for one record
    /// declaration.
    #[verifier::rlimit(60)]
    pub fn struct_items(&self, item: &TypeDescriptor, args: &ModifierSet) -> (r: Result<
        Vec<Tok>,
        Error,
    >)
        requires
            fields_wf(item@.fields),
        ensures
            r matches Ok(v) && toks_dv(v@) == sp_debug_fragment(item@, args.ignored@),
    {
        let mut out: Vec<Tok> = Vec::new();
        push_id(&mut out, "fn");
        push_id(&mut out, "fmt");
        push_open(&mut out, Delim::Paren);
        push_p(&mut out, '&');
        push_id(&mut out, "self");
        push_p(&mut out, ',');
        push_id(&mut out, "f");
        push_p(&mut out, ':');
        push_p(&mut out, '&');
        push_id(&mut out, "mut");
        push_id(&mut out, "core");
        push_p(&mut out, ':');
        push_p(&mut out, ':');
        push_id(&mut out, "fmt");
        push_p(&mut out, ':');
        push_p(&mut out, ':');
        push_id(&mut out, "Formatter");
        push_close(&mut out, Delim::Paren);
        push_p(&mut out, '-');
        push_p(&mut out, '>');
        push_id(&mut out, "core");
        push_p(&mut out, ':');
        push_p(&mut out, ':');
        push_id(&mut out, "fmt");
        push_p(&mut out, ':');
        push_p(&mut out, ':');
        push_id(&mut out, "Result");
        push_open(&mut out, Delim::Brace);
        proof {
            assert(toks_dv(out@) =~= sp_debug_prefix());
        }
        match &item.fields {
            Fields::Named(fx) => {
                push_debug_open(&mut out, "debug_struct", &item.ident);
                let saw = debug_named_from(&fx.fields, 0, args, &mut out);
                push_debug_finish(&mut out, !saw);
                proof {
                    assert(fx.fields.deep_view().skip(0) =~= fx.fields.deep_view());
                    assert(toks_dv(out@) =~= sp_debug_prefix() + sp_debug_inner(
                        item@,
                        args.ignored@,
                    ));
                }
            },
            Fields::Unnamed(fx) => {
                push_debug_open(&mut out, "debug_tuple", &item.ident);
                debug_unnamed_from(fx.fields.len(), 0, args, &mut out);
                push_debug_finish(&mut out, true);
                proof {
                    assert(toks_dv(out@) =~= sp_debug_prefix() + sp_debug_inner(
                        item@,
                        args.ignored@,
                    ));
                }
            },
            Fields::Unit => {
                push_id(&mut out, "f");
                push_p(&mut out, '.');
                push_id(&mut out, "write_str");
                push_open(&mut out, Delim::Paren);
                push_tok(&mut out, Tok::Lit(quoted(item.ident.as_str())));
                push_close(&mut out, Delim::Paren);
                proof {
                    assert(toks_dv(out@) =~= sp_debug_prefix() + sp_debug_inner(
                        item@,
                        args.ignored@,
                    ));
                }
            },
        }
        push_close(&mut out, Delim::Brace);
        proof {
            assert(toks_dv(out@) =~= sp_debug_fragment(item@, args.ignored@));
        }
        Ok(out)
    }
}

/// One named-field initializer of the default fragment.
pub open spec fn sp_dflt_field_named(name: Seq<char>) -> Seq<TokV> {
    seq![TokV::Ident(name), TokV::Punct(':')] + sp_default_call() + seq![TokV::Punct(',')]
}

pub open spec fn sp_dflt_named_list(fs: Seq<crate::fields::FieldV>) -> Seq<TokV>
    decreases fs.len(),
{
    if fs.len() == 0 {
        Seq::<TokV>::empty()
    } else {
        sp_dflt_field_named(fs[0].ident->0@) + sp_dflt_named_list(fs.drop_first())
    }
}

pub open spec fn sp_dflt_unnamed_list(n: nat, i: nat) -> Seq<TokV>
    decreases n - i,
{
    if i >= n {
        Seq::<TokV>::empty()
    } else {
        sp_default_call() + seq![TokV::Punct(',')] + sp_dflt_unnamed_list(n, i + 1)
    }
}

/// The constructed value of the default fragment.
pub open spec fn sp_dflt_inner(d: TypeDescriptorV) -> Seq<TokV> {
    match d.fields {
        FieldsV::Named(f) => seq![TokV::Ident(d.ident@), TokV::Open(Delim::Brace)]
            + sp_dflt_named_list(f.fields) + seq![TokV::Close(Delim::Brace)],
        FieldsV::Unnamed(f) => seq![TokV::Ident(d.ident@), TokV::Open(Delim::Paren)]
            + sp_dflt_unnamed_list(f.fields.len(), 0) + seq![TokV::Close(Delim::Paren)],
        FieldsV::Unit => seq![TokV::Ident(d.ident@)],
    }
}

/// `fn default ( ) -> Self {`
pub open spec fn sp_dflt_prefix() -> Seq<TokV> {
    seq![
        TokV::Ident("fn"@),
        TokV::Ident("default"@),
        TokV::Open(Delim::Paren),
        TokV::Close(Delim::Paren),
        TokV::Punct('-'),
        TokV::Punct('>'),
        TokV::Ident("Self"@),
        TokV::Open(Delim::Brace),
    ]
}

/// The whole default-construction fragment of the capability form:
/// every field takes its type's default value.
pub open spec fn sp_dflt_fragment(d: TypeDescriptorV) -> Seq<TokV> {
    sp_dflt_prefix() + sp_dflt_inner(d) + seq![TokV::Close(Delim::Brace)]
}

fn dflt_named_from(fields: &Vec<Field>, idx: usize, out: &mut Vec<Tok>)
    requires
        idx <= fields@.len(),
        fields_list_wf(fields.deep_view(), true),
    ensures
        toks_dv(final(out)@) == toks_dv(old(out)@) + sp_dflt_named_list(
            fields.deep_view().skip(idx as int),
        ),
    decreases fields@.len() - idx,
{
    let ghost fs = fields.deep_view().skip(idx as int);
    if idx >= fields.len() {
        proof {
            assert(toks_dv(final(out)@) =~= toks_dv(old(out)@) + sp_dflt_named_list(fs));
        }
        return ;
    }
    proof {
        assert(field_wf(fields.deep_view()[idx as int], true));
    }
    match &fields[idx].ident {
        Some(id) => {
            push_id_string(out, id);
            push_p(out, ':');
            push_default_call(out);
            push_p(out, ',');
            let ghost mid = toks_dv(out@);
            proof {
                assert(mid =~= toks_dv(old(out)@) + sp_dflt_field_named(fs[0].ident->0@));
            }
            dflt_named_from(fields, idx + 1, out);
            proof {
                assert(fields.deep_view().skip(idx + 1 as int) =~= fs.drop_first());
                assert(toks_dv(final(out)@) =~= toks_dv(old(out)@) + sp_dflt_named_list(fs));
            }
        },
        None => {
            proof {
                assert(false);
            }
        },
    }
}

fn dflt_unnamed_from(n: usize, idx: usize, out: &mut Vec<Tok>)
    requires
        idx <= n,
    ensures
        toks_dv(final(out)@) == toks_dv(old(out)@) + sp_dflt_unnamed_list(n as nat, idx as nat),
    decreases n - idx,
{
    if idx >= n {
        proof {
            assert(toks_dv(final(out)@) =~= toks_dv(old(out)@) + sp_dflt_unnamed_list(
                n as nat,
                idx as nat,
            ));
        }
        return ;
    }
    push_default_call(out);
    push_p(out, ',');
    dflt_unnamed_from(n, idx + 1, out);
    proof {
        assert(toks_dv(final(out)@) =~= toks_dv(old(out)@) + sp_dflt_unnamed_list(
            n as nat,
            idx as nat,
        ));
    }
}

/// The default-construction capability in its per-field form: every
/// field of the record takes its type's default value.
pub struct ImplDefault;

impl ImplDefault {
    /// The capability's fully-qualified name.
    pub fn path(&self) -> (r: SimplePath)
        ensures
            r.view_segments() == seq![""@, "core"@, "default"@, "Default"@],
    {
        let r = SimplePath::new(&["", "core", "default", "Default"]);
        proof {
            assert(r.view_segments() =~= seq![""@, "core"@, "default"@, "Default"@]);
        }
        r
    }

    /// Default-construction honors no `ignore` directive.
    pub fn support_ignore(&self) -> (r: bool)
        ensures
            r == false,
    {
        false
    }

    /// Default-construction does not delegate.
    pub fn support_using(&self) -> (r: bool)
        ensures
            r == false,
    {
        false
    }

    /// Render the default-construction fragment for one record
    /// declaration; the modifier set takes no part in it.
    pub fn struct_items(&self, item: &TypeDescriptor, _args: &ModifierSet) -> (r: Result<
        Vec<Tok>,
        Error,
    >)
        requires
            fields_wf(item@.fields),
        ensures
            r matches Ok(v) && toks_dv(v@) == sp_dflt_fragment(item@),
    {
        let mut out: Vec<Tok> = Vec::new();
        push_id(&mut out, "fn");
        push_id(&mut out, "default");
        push_open(&mut out, Delim::Paren);
        push_close(&mut out, Delim::Paren);
        push_p(&mut out, '-');
        push_p(&mut out, '>');
        push_id(&mut out, "Self");
        push_open(&mut out, Delim::Brace);
        proof {
            assert(toks_dv(out@) =~= sp_dflt_prefix());
        }
        match &item.fields {
            Fields::Named(fx) => {
                push_id_string(&mut out, &item.ident);
                push_open(&mut out, Delim::Brace);
                dflt_named_from(&fx.fields, 0, &mut out);
                push_close(&mut out, Delim::Brace);
                proof {
                    assert(fx.fields.deep_view().skip(0) =~= fx.fields.deep_view());
                    assert(toks_dv(out@) =~= sp_dflt_prefix() + sp_dflt_inner(item@));
                }
            },
            Fields::Unnamed(fx) => {
                push_id_string(&mut out, &item.ident);
                push_open(&mut out, Delim::Paren);
                dflt_unnamed_from(fx.fields.len(), 0, &mut out);
                push_close(&mut out, Delim::Paren);
                proof {
                    assert(toks_dv(out@) =~= sp_dflt_prefix() + sp_dflt_inner(item@));
                }
            },
            Fields::Unit => {
                push_id_string(&mut out, &item.ident);
                proof {
                    assert(toks_dv(out@) =~= sp_dflt_prefix() + sp_dflt_inner(item@));
                }
            },
        }
        push_close(&mut out, Delim::Brace);
        proof {
            assert(toks_dv(out@) =~= sp_dflt_fragment(item@));
        }
        Ok(out)
    }
}

/// Copy-capability on a named record with fields `a`, `b`, `c` and
/// `b` ignored: the constructor copies `a` and `c` verbatim from
/// `self` and sets `b` to its type's default value — never to another
/// field's value.
pub proof fn lemma_clone_ignores_only_marked(
    fs: Seq<crate::fields::FieldV>,
    ig: Seq<FieldIdent>,
    a: Seq<char>,
    b: Seq<char>,
    c: Seq<char>,
)
    requires
        fs.len() == 3,
        fs[0].ident is Some && fs[0].ident->0@ == a,
        fs[1].ident is Some && fs[1].ident->0@ == b,
        fs[2].ident is Some && fs[2].ident->0@ == c,
        !set_ignores_named(ig, a),
        set_ignores_named(ig, b),
        !set_ignores_named(ig, c),
    ensures
        sp_clone_named_list(fs, ig) == (seq![TokV::Ident(a), TokV::Punct(':')] + seq![
            TokV::Ident("self"@),
            TokV::Punct('.'),
            TokV::Ident(a),
        ] + sp_clone_suffix() + seq![TokV::Punct(',')]) + (seq![TokV::Ident(b), TokV::Punct(':')]
            + sp_default_call() + seq![TokV::Punct(',')]) + (seq![TokV::Ident(c), TokV::Punct(':')]
            + seq![TokV::Ident("self"@), TokV::Punct('.'), TokV::Ident(c)] + sp_clone_suffix()
            + seq![TokV::Punct(',')]),
{
    let r1 = fs.drop_first();
    let r2 = r1.drop_first();
    assert(r2.drop_first().len() == 0);
    assert(r1[0] == fs[1]);
    assert(r2[0] == fs[2]);
    assert(sp_clone_named_list(fs, ig) == sp_clone_field_named(a, ig) + sp_clone_named_list(
        r1,
        ig,
    ));
    assert(sp_clone_named_list(r1, ig) == sp_clone_field_named(b, ig) + sp_clone_named_list(
        r2,
        ig,
    ));
    assert(sp_clone_named_list(r2, ig) == sp_clone_field_named(c, ig) + sp_clone_named_list(
        r2.drop_first(),
        ig,
    ));
    assert(sp_clone_named_list(r2.drop_first(), ig) =~= Seq::<TokV>::empty());
    assert(sp_clone_named_list(fs, ig) =~= (seq![TokV::Ident(a), TokV::Punct(':')] + seq![
        TokV::Ident("self"@),
        TokV::Punct('.'),
        TokV::Ident(a),
    ] + sp_clone_suffix() + seq![TokV::Punct(',')]) + (seq![TokV::Ident(b), TokV::Punct(':')]
        + sp_default_call() + seq![TokV::Punct(',')]) + (seq![TokV::Ident(c), TokV::Punct(':')]
        + seq![TokV::Ident("self"@), TokV::Punct('.'), TokV::Ident(c)] + sp_clone_suffix() + seq![
        TokV::Punct(','),
    ]));
}

/// Debug-formatting of a named record finishes exhaustively exactly
/// when no field was ignored, and non-exhaustively as soon as any
/// was: the final call of the fragment depends only on whether some
/// field was ignored, never on how many fields exist.
pub proof fn lemma_debug_finish_choice(d: TypeDescriptorV, ig: Seq<FieldIdent>)
    requires
        d.fields is Named,
    ensures
        match d.fields {
            FieldsV::Named(f) => sp_debug_fragment(d, ig) == sp_debug_prefix() + sp_debug_open(
                "debug_struct"@,
                d.ident@,
            ) + sp_debug_named_list(f.fields, ig) + (if sp_any_ignored_named(f.fields, ig) {
                seq![
                    TokV::Punct('.'),
                    TokV::Ident("finish_non_exhaustive"@),
                    TokV::Open(Delim::Paren),
                    TokV::Close(Delim::Paren),
                ]
            } else {
                seq![
                    TokV::Punct('.'),
                    TokV::Ident("finish"@),
                    TokV::Open(Delim::Paren),
                    TokV::Close(Delim::Paren),
                ]
            }) + seq![TokV::Close(Delim::Brace)],
            _ => true,
        },
{
    match d.fields {
        FieldsV::Named(f) => {
            if sp_any_ignored_named(f.fields, ig) {
                assert(sp_debug_finish(false) =~= seq![
                    TokV::Punct('.'),
                    TokV::Ident("finish_non_exhaustive"@),
                    TokV::Open(Delim::Paren),
                    TokV::Close(Delim::Paren),
                ]);
            } else {
                assert(sp_debug_finish(true) =~= seq![
                    TokV::Punct('.'),
                    TokV::Ident("finish"@),
                    TokV::Open(Delim::Paren),
                    TokV::Close(Delim::Paren),
                ]);
            }
            assert(sp_debug_fragment(d, ig) =~= sp_debug_prefix() + sp_debug_open(
                "debug_struct"@,
                d.ident@,
            ) + sp_debug_named_list(f.fields, ig) + sp_debug_finish(
                !sp_any_ignored_named(f.fields, ig),
            ) + seq![TokV::Close(Delim::Brace)]);
        },
        _ => {},
    }
}

/// Debug-formatting of a positional record `(x, y)` with the second
/// field ignored still shows two field slots: the first carries the
/// field's value, the second a placeholder, preserving the declared
/// arity.
pub proof fn lemma_debug_tuple_arity(ig: Seq<FieldIdent>)
    requires
        !set_ignores_unnamed(ig, 0),
        set_ignores_unnamed(ig, 1),
    ensures
        sp_debug_unnamed_list(2, 0, ig) == (seq![
            TokV::Punct('.'),
            TokV::Ident("field"@),
            TokV::Open(Delim::Paren),
            TokV::Punct('&'),
        ] + seq![TokV::Ident("self"@), TokV::Punct('.'), TokV::Lit(dec_str(0))] + seq![
            TokV::Close(Delim::Paren),
        ]) + (seq![
            TokV::Punct('.'),
            TokV::Ident("field"@),
            TokV::Open(Delim::Paren),
            TokV::Punct('&'),
        ] + seq![
            TokV::Ident("format_args"@),
            TokV::Punct('!'),
            TokV::Open(Delim::Paren),
            TokV::Lit(quoted_text("_"@)),
            TokV::Close(Delim::Paren),
        ] + seq![TokV::Close(Delim::Paren)]),
{
    assert(sp_debug_unnamed_list(2, 0, ig) == sp_debug_entry_unnamed(0, ig)
        + sp_debug_unnamed_list(2, 1, ig));
    assert(sp_debug_unnamed_list(2, 1, ig) == sp_debug_entry_unnamed(1, ig)
        + sp_debug_unnamed_list(2, 2, ig));
    assert(sp_debug_unnamed_list(2, 2, ig) =~= Seq::<TokV>::empty());
    assert(sp_debug_unnamed_list(2, 0, ig) =~= sp_debug_entry_unnamed(0, ig)
        + sp_debug_entry_unnamed(1, ig));
}

} // verus!
