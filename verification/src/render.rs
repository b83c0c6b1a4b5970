//! Re-rendering a parsed field list back into tokens.
//!
//! Rendering echoes attributes, visibilities, identifiers and type
//! expressions unchanged.  A field whose default-value expression was
//! never consumed by a default-construction pass raises a
//! `DanglingDefaultExpression` diagnostic and the expression is
//! dropped from the output, never passed through.

use vstd::prelude::*;

use crate::errors::Error;
use crate::fields::{
    ds_src, field_src, field_stripped, fields_list_src, fields_named_src, fields_unnamed_src,
    DataStructV, Field, FieldV, FieldsNamed, FieldsNamedV, FieldsUnnamed, FieldsUnnamedV, FieldsV,
};
use crate::tokens::{append_copy, Delim, Tok};

verus! {

/// Every field of the list with its default-value expression
/// discharged.
pub open spec fn strip_list(fs: Seq<FieldV>) -> Seq<FieldV> {
    fs.map(|q: int, f: FieldV| field_stripped(f))
}

/// Whether some field of the list still carries a default-value
/// expression.
pub open spec fn any_assign(fs: Seq<FieldV>) -> bool {
    exists|q: int| 0 <= q < fs.len() && (#[trigger] fs[q].assign) is Some
}

/// Diagnostics appended by one rendering call: all dangling-default
/// reports, and some exactly when a default-value expression was
/// dropped.
pub open spec fn render_diags_ok(old_d: Seq<Error>, new_d: Seq<Error>, dangling: bool) -> bool {
    &&& new_d.len() >= old_d.len()
    &&& forall|k: int| 0 <= k < old_d.len() ==> new_d[k] == old_d[k]
    &&& forall|k: int|
        old_d.len() <= k < new_d.len() ==> (#[trigger] new_d[k]) is DanglingDefaultExpression
    &&& (new_d.len() > old_d.len()) == dangling
}

/// Decomposition of `any_assign` over a non-empty list.
proof fn lemma_any_assign_cons(fs: Seq<FieldV>)
    requires
        fs.len() >= 1,
    ensures
        any_assign(fs) == (fs[0].assign is Some || any_assign(fs.drop_first())),
{
    if fs[0].assign is Some {
        assert(any_assign(fs));
    }
    if any_assign(fs.drop_first()) {
        let q = choose|q: int|
            0 <= q < fs.drop_first().len() && (#[trigger] fs.drop_first()[q].assign) is Some;
        assert(fs[q + 1].assign is Some);
        assert(any_assign(fs));
    }
    if any_assign(fs) {
        let q = choose|q: int| 0 <= q < fs.len() && (#[trigger] fs[q].assign) is Some;
        if q != 0 {
            assert(fs.drop_first()[q - 1].assign is Some);
            assert(any_assign(fs.drop_first()));
        }
    }
}

impl Field {
    /// Render this field.  A still-attached default-value expression
    /// raises a diagnostic and is not emitted.
    pub fn to_tokens(&self, tokens: &mut Vec<Tok>, diags: &mut Vec<Error>)
        ensures
            final(tokens)@ == old(tokens)@ + field_src(field_stripped(self@)),
            render_diags_ok(old(diags)@, final(diags)@, self@.assign is Some),
    {
        append_copy(tokens, &self.attrs);
        append_copy(tokens, &self.vis);
        match &self.ident {
            Some(id) => {
                tokens.push(Tok::Ident(id.clone()));
                tokens.push(Tok::Punct(':'));
            },
            None => {},
        }
        append_copy(tokens, &self.ty);
        match &self.assign {
            Some(_) => {
                diags.push(Error::DanglingDefaultExpression(tokens.len()));
            },
            None => {},
        }
        proof {
            assert(final(tokens)@ =~= old(tokens)@ + field_src(field_stripped(self@)));
        }
    }
}

/// Render the fields `fields[idx..]`, comma-separated, with a
/// trailing comma when `trailing` holds.
fn render_list_from(
    fields: &Vec<Field>,
    idx: usize,
    trailing: bool,
    tokens: &mut Vec<Tok>,
    diags: &mut Vec<Error>,
)
    requires
        idx <= fields@.len(),
    ensures
        final(tokens)@ == old(tokens)@ + fields_list_src(
            strip_list(fields.deep_view().skip(idx as int)),
            trailing,
        ),
        render_diags_ok(
            old(diags)@,
            final(diags)@,
            any_assign(fields.deep_view().skip(idx as int)),
        ),
    decreases fields@.len() - idx,
{
    let ghost fs = fields.deep_view().skip(idx as int);
    if idx >= fields.len() {
        proof {
            assert(strip_list(fs) =~= Seq::<FieldV>::empty());
            assert(fields_list_src(strip_list(fs), trailing) =~= Seq::<Tok>::empty());
            assert(final(tokens)@ =~= old(tokens)@ + fields_list_src(strip_list(fs), trailing));
        }
        return ;
    }
    fields[idx].to_tokens(tokens, diags);
    proof {
        assert(fields.deep_view()[idx as int] == fields@[idx as int]@);
        assert(strip_list(fs)[0] == field_stripped(fs[0]));
    }
    if idx + 1 == fields.len() {
        if trailing {
            tokens.push(Tok::Punct(','));
        }
        proof {
            assert(strip_list(fs).len() == 1);
            assert(final(tokens)@ =~= old(tokens)@ + fields_list_src(strip_list(fs), trailing));
            lemma_any_assign_cons(fs);
        }
    } else {
        tokens.push(Tok::Punct(','));
        render_list_from(fields, idx + 1, trailing, tokens, diags);
        proof {
            assert(strip_list(fields.deep_view().skip(idx + 1 as int)) =~= strip_list(
                fs,
            ).drop_first());
            assert(strip_list(fs).len() >= 2);
            assert(fields_list_src(strip_list(fs), trailing) == field_src(strip_list(fs)[0])
                + seq![Tok::Punct(',')] + fields_list_src(strip_list(fs).drop_first(), trailing));
            assert(final(tokens)@ =~= old(tokens)@ + fields_list_src(strip_list(fs), trailing));
            lemma_any_assign_cons(fs);
            assert(fields.deep_view().skip(idx + 1 as int) =~= fs.drop_first());
        }
    }
}

impl FieldsNamed {
    /// Render the braced named-field list; dangling default-value
    /// expressions are reported and dropped.
    pub fn to_tokens(&self, tokens: &mut Vec<Tok>, diags: &mut Vec<Error>)
        ensures
            final(tokens)@ == old(tokens)@ + fields_named_src(
                FieldsNamedV {
                    fields: strip_list(self@.fields),
                    trailing_comma: self@.trailing_comma,
                },
            ),
            render_diags_ok(old(diags)@, final(diags)@, any_assign(self@.fields)),
    {
        tokens.push(Tok::Open(Delim::Brace));
        render_list_from(&self.fields, 0, self.trailing_comma, tokens, diags);
        tokens.push(Tok::Close(Delim::Brace));
        proof {
            assert(self.fields.deep_view().skip(0) =~= self@.fields);
            assert(final(tokens)@ =~= old(tokens)@ + fields_named_src(
                FieldsNamedV {
                    fields: strip_list(self@.fields),
                    trailing_comma: self@.trailing_comma,
                },
            ));
        }
    }
}

impl FieldsUnnamed {
    /// Render the parenthesized positional-field list; dangling
    /// default-value expressions are reported and dropped.
    pub fn to_tokens(&self, tokens: &mut Vec<Tok>, diags: &mut Vec<Error>)
        ensures
            final(tokens)@ == old(tokens)@ + fields_unnamed_src(
                FieldsUnnamedV {
                    fields: strip_list(self@.fields),
                    trailing_comma: self@.trailing_comma,
                },
            ),
            render_diags_ok(old(diags)@, final(diags)@, any_assign(self@.fields)),
    {
        tokens.push(Tok::Open(Delim::Paren));
        render_list_from(&self.fields, 0, self.trailing_comma, tokens, diags);
        tokens.push(Tok::Close(Delim::Paren));
        proof {
            assert(self.fields.deep_view().skip(0) =~= self@.fields);
            assert(final(tokens)@ =~= old(tokens)@ + fields_unnamed_src(
                FieldsUnnamedV {
                    fields: strip_list(self@.fields),
                    trailing_comma: self@.trailing_comma,
                },
            ));
        }
    }
}

/// Whether no field of the record body still carries a default-value
/// expression.
pub open spec fn ds_no_assigns(d: DataStructV) -> bool {
    match d.fields {
        FieldsV::Named(f) => !any_assign(f.fields),
        FieldsV::Unnamed(f) => !any_assign(f.fields),
        FieldsV::Unit => true,
    }
}

/// The record body with every default-value expression discharged.
pub open spec fn ds_stripped(d: DataStructV) -> DataStructV {
    match d.fields {
        FieldsV::Named(f) => DataStructV {
            fields: FieldsV::Named(
                FieldsNamedV { fields: strip_list(f.fields), trailing_comma: f.trailing_comma },
            ),
            ..d
        },
        FieldsV::Unnamed(f) => DataStructV {
            fields: FieldsV::Unnamed(
                FieldsUnnamedV { fields: strip_list(f.fields), trailing_comma: f.trailing_comma },
            ),
            ..d
        },
        FieldsV::Unit => d,
    }
}

impl crate::fields::DataStruct {
    /// Render the whole record body: the where-clause run in its
    /// place, the field list, and the statement terminator for the
    /// positional and unit forms.  Dangling default-value expressions
    /// are reported and dropped.
    pub fn to_tokens(&self, tokens: &mut Vec<Tok>, diags: &mut Vec<Error>)
        ensures
            final(tokens)@ == old(tokens)@ + ds_src(ds_stripped(self@)),
            render_diags_ok(old(diags)@, final(diags)@, !ds_no_assigns(self@)),
    {
        match &self.fields {
            crate::fields::Fields::Named(f) => {
                match &self.where_clause {
                    Some(w) => append_copy(tokens, w),
                    None => {},
                }
                f.to_tokens(tokens, diags);
            },
            crate::fields::Fields::Unnamed(f) => {
                f.to_tokens(tokens, diags);
                match &self.where_clause {
                    Some(w) => append_copy(tokens, w),
                    None => {},
                }
                tokens.push(Tok::Punct(';'));
            },
            crate::fields::Fields::Unit => {
                match &self.where_clause {
                    Some(w) => append_copy(tokens, w),
                    None => {},
                }
                tokens.push(Tok::Punct(';'));
            },
        }
        proof {
            assert(final(tokens)@ =~= old(tokens)@ + ds_src(ds_stripped(self@)));
        }
    }
}

/// Rendering leaks no default-value expression: a stripped field list
/// renders the same tokens whether or not the expressions were
/// attached.
pub proof fn lemma_strip_identity(fs: Seq<FieldV>)
    requires
        !any_assign(fs),
    ensures
        strip_list(fs) == fs,
{
    assert forall|q: int| 0 <= q < fs.len() implies strip_list(fs)[q] == fs[q] by {
        assert(fs[q].assign is None);
    }
    assert(strip_list(fs) =~= fs);
}

/// Round trip: a record body parsed from tokens and re-rendered, with
/// no default-value expressions left to consume, reproduces exactly
/// the tokens it was parsed from — identical identifiers, types and
/// ordering.
pub proof fn lemma_round_trip(s: Seq<Tok>, d: DataStructV)
    requires
        crate::parse::sp_data_struct(s) == Some(d),
        ds_no_assigns(d),
    ensures
        ds_src(d) == s,
        ds_stripped(d) == d,
        ds_src(ds_stripped(d)) == s,
        match d.fields {
            FieldsV::Named(f) => strip_list(f.fields) == f.fields,
            FieldsV::Unnamed(f) => strip_list(f.fields) == f.fields,
            FieldsV::Unit => true,
        },
{
    crate::parse::lemma_sp_data_struct_src(s);
    match d.fields {
        FieldsV::Named(f) => lemma_strip_identity(f.fields),
        FieldsV::Unnamed(f) => lemma_strip_identity(f.fields),
        FieldsV::Unit => {},
    }
}

} // verus!
