//! The field-list parser: from the raw token run of a record body to
//! the normalized field list, recognizing the `= expression` suffix on
//! any field.
//!
//! The parser is specified by spec-level scanning functions over the
//! token sequence; every executable function returns exactly what its
//! spec counterpart denotes, and a parsed field list re-renders to the
//! very tokens it was parsed from (see `lemma_sp_data_struct_src`).

use vstd::prelude::*;

use crate::errors::Error;
use crate::fields::{
    ds_src, field_src, field_wf, fields_list_src, fields_list_wf, fields_named_src,
    fields_wf, opt_run,
    fields_unnamed_src, DataStruct, DataStructV, Field, FieldV, Fields, FieldsNamed, FieldsNamedV,
    FieldsUnnamed, FieldsUnnamedV, FieldsV,
};
use crate::tokens::{copy_range, str_is, Delim, Tok};

verus! {

/// Whether a token is the given keyword.
pub open spec fn is_kw(t: Tok, kw: Seq<char>) -> bool {
    match t {
        Tok::Ident(s) => s@ == kw,
        _ => false,
    }
}

/// Position just past the closing delimiter that matches `depth`
/// already-open groups, scanning from `i`.
pub open spec fn sp_close(s: Seq<Tok>, i: int, depth: nat) -> Option<int>
    decreases s.len() - i,
{
    if i < 0 || i >= s.len() {
        None
    } else {
        match s[i] {
            Tok::Open(_) => sp_close(s, i + 1, depth + 1),
            Tok::Close(_) => if depth <= 1 {
                Some(i + 1)
            } else {
                sp_close(s, i + 1, (depth - 1) as nat)
            },
            _ => sp_close(s, i + 1, depth),
        }
    }
}

pub proof fn lemma_sp_close_range(s: Seq<Tok>, i: int, depth: nat)
    ensures
        match sp_close(s, i, depth) {
            Some(j) => i < j <= s.len(),
            None => true,
        },
    decreases s.len() - i,
{
    if i < 0 || i >= s.len() {
    } else {
        match s[i] {
            Tok::Open(_) => lemma_sp_close_range(s, i + 1, depth + 1),
            Tok::Close(_) => if depth <= 1 {
            } else {
                lemma_sp_close_range(s, i + 1, (depth - 1) as nat)
            },
            _ => lemma_sp_close_range(s, i + 1, depth),
        }
    }
}

/// End of a type or expression run starting at `i`: stops at a
/// top-level `,` (and `=` when `stop_eq` holds) outside angle
/// brackets, or at the closing delimiter of the surrounding group.
pub open spec fn sp_run(s: Seq<Tok>, i: int, gdepth: nat, angle: nat, stop_eq: bool) -> Option<
    int,
>
    decreases s.len() - i,
{
    if i < 0 {
        None
    } else if i >= s.len() {
        if gdepth == 0 {
            Some(i)
        } else {
            None
        }
    } else {
        match s[i] {
            Tok::Open(_) => sp_run(s, i + 1, gdepth + 1, angle, stop_eq),
            Tok::Close(_) => if gdepth == 0 {
                Some(i)
            } else {
                sp_run(s, i + 1, (gdepth - 1) as nat, angle, stop_eq)
            },
            Tok::Punct(c) => if gdepth == 0 && angle == 0 && (c == ',' || (stop_eq && c == '=')) {
                Some(i)
            } else if gdepth == 0 && c == '<' {
                sp_run(s, i + 1, 0, angle + 1, stop_eq)
            } else if gdepth == 0 && c == '>' && angle > 0 {
                sp_run(s, i + 1, 0, (angle - 1) as nat, stop_eq)
            } else {
                sp_run(s, i + 1, gdepth, angle, stop_eq)
            },
            _ => sp_run(s, i + 1, gdepth, angle, stop_eq),
        }
    }
}

pub proof fn lemma_sp_run_range(s: Seq<Tok>, i: int, gdepth: nat, angle: nat, stop_eq: bool)
    requires
        0 <= i,
    ensures
        match sp_run(s, i, gdepth, angle, stop_eq) {
            Some(j) => i <= j && (j <= s.len() || j == i),
            None => true,
        },
    decreases s.len() - i,
{
    if i >= s.len() {
    } else {
        match s[i] {
            Tok::Open(_) => lemma_sp_run_range(s, i + 1, gdepth + 1, angle, stop_eq),
            Tok::Close(_) => if gdepth == 0 {
            } else {
                lemma_sp_run_range(s, i + 1, (gdepth - 1) as nat, angle, stop_eq)
            },
            Tok::Punct(c) => if gdepth == 0 && angle == 0 && (c == ',' || (stop_eq && c == '=')) {
            } else if gdepth == 0 && c == '<' {
                lemma_sp_run_range(s, i + 1, 0, angle + 1, stop_eq)
            } else if gdepth == 0 && c == '>' && angle > 0 {
                lemma_sp_run_range(s, i + 1, 0, (angle - 1) as nat, stop_eq)
            } else {
                lemma_sp_run_range(s, i + 1, gdepth, angle, stop_eq)
            },
            _ => lemma_sp_run_range(s, i + 1, gdepth, angle, stop_eq),
        }
    }
}

/// End of an opaque where-clause run starting at `i`: stops at a
/// top-level `{` or `;`, or at the end of the input.
pub open spec fn sp_where(s: Seq<Tok>, i: int, gdepth: nat) -> Option<int>
    decreases s.len() - i,
{
    if i < 0 {
        None
    } else if i >= s.len() {
        if gdepth == 0 {
            Some(i)
        } else {
            None
        }
    } else {
        match s[i] {
            Tok::Open(d) => if gdepth == 0 && d == Delim::Brace {
                Some(i)
            } else {
                sp_where(s, i + 1, gdepth + 1)
            },
            Tok::Close(_) => if gdepth == 0 {
                Some(i)
            } else {
                sp_where(s, i + 1, (gdepth - 1) as nat)
            },
            Tok::Punct(c) => if gdepth == 0 && c == ';' {
                Some(i)
            } else {
                sp_where(s, i + 1, gdepth)
            },
            _ => sp_where(s, i + 1, gdepth),
        }
    }
}

pub proof fn lemma_sp_where_range(s: Seq<Tok>, i: int, gdepth: nat)
    requires
        0 <= i,
    ensures
        match sp_where(s, i, gdepth) {
            Some(j) => i <= j && (j <= s.len() || j == i),
            None => true,
        },
    decreases s.len() - i,
{
    if i >= s.len() {
    } else {
        match s[i] {
            Tok::Open(d) => if gdepth == 0 && d == Delim::Brace {
            } else {
                lemma_sp_where_range(s, i + 1, gdepth + 1)
            },
            Tok::Close(_) => if gdepth == 0 {
            } else {
                lemma_sp_where_range(s, i + 1, (gdepth - 1) as nat)
            },
            Tok::Punct(c) => if gdepth == 0 && c == ';' {
            } else {
                lemma_sp_where_range(s, i + 1, gdepth)
            },
            _ => lemma_sp_where_range(s, i + 1, gdepth),
        }
    }
}

/// End of the (possibly empty) run of outer attributes starting at
/// `i`: zero or more `# [ ... ]` groups.
pub open spec fn sp_attrs(s: Seq<Tok>, i: int) -> Option<int>
    decreases s.len() - i,
{
    if i < 0 || i >= s.len() {
        Some(i)
    } else if s[i] == Tok::Punct('#') {
        if i + 1 < s.len() && s[i + 1] == Tok::Open(Delim::Bracket) {
            match sp_close(s, i + 2, 1) {
                None => None,
                Some(j) => {
                    proof {
                        lemma_sp_close_range(s, i + 2, 1);
                    }
                    sp_attrs(s, j)
                },
            }
        } else {
            None
        }
    } else {
        Some(i)
    }
}

pub proof fn lemma_sp_attrs_range(s: Seq<Tok>, i: int)
    requires
        0 <= i,
    ensures
        match sp_attrs(s, i) {
            Some(j) => i <= j <= s.len() || (i >= s.len() && j == i),
            None => true,
        },
    decreases s.len() - i,
{
    if i >= s.len() {
    } else if s[i] == Tok::Punct('#') {
        if i + 1 < s.len() && s[i + 1] == Tok::Open(Delim::Bracket) {
            lemma_sp_close_range(s, i + 2, 1);
            match sp_close(s, i + 2, 1) {
                None => {},
                Some(j) => lemma_sp_attrs_range(s, j),
            }
        }
    }
}

/// End of the (possibly empty) visibility run starting at `i`: `pub`,
/// optionally followed by a parenthesized restriction.
pub open spec fn sp_vis(s: Seq<Tok>, i: int) -> Option<int> {
    if i < 0 || i >= s.len() {
        Some(i)
    } else if is_kw(s[i], "pub"@) {
        if i + 1 < s.len() && s[i + 1] == Tok::Open(Delim::Paren) {
            sp_close(s, i + 2, 1)
        } else {
            Some(i + 1)
        }
    } else {
        Some(i)
    }
}

pub proof fn lemma_sp_vis_range(s: Seq<Tok>, i: int)
    requires
        0 <= i,
    ensures
        match sp_vis(s, i) {
            Some(j) => (i <= j <= s.len()) || (i >= s.len() && j == i),
            None => true,
        },
{
    if i < s.len() && is_kw(s[i], "pub"@) && i + 1 < s.len() && s[i + 1] == Tok::Open(
        Delim::Paren,
    ) {
        lemma_sp_close_range(s, i + 2, 1);
    }
}

/// The tail of one field after attributes, visibility and (for named
/// fields) identifier and colon: `ty [= expr]`.
pub open spec fn sp_field_tail(
    s: Seq<Tok>,
    i: int,
    a_end: int,
    v_end: int,
    id: Option<String>,
    t0: int,
) -> Option<(FieldV, int)> {
    match sp_run(s, t0, 0, 0, true) {
        None => None,
        Some(t_end) => if t_end <= t0 {
            None  // empty type expression
        } else if t_end < s.len() && s[t_end] == Tok::Punct('=') {
            match sp_run(s, t_end + 1, 0, 0, false) {
                None => None,
                Some(e_end) => if e_end <= t_end + 1 {
                    None  // empty default-value expression
                } else {
                    Some(
                        (
                            FieldV {
                                attrs: s.subrange(i, a_end),
                                vis: s.subrange(a_end, v_end),
                                ident: id,
                                ty: s.subrange(t0, t_end),
                                assign: Some(s.subrange(t_end + 1, e_end)),
                            },
                            e_end,
                        ),
                    )
                },
            }
        } else {
            Some(
                (
                    FieldV {
                        attrs: s.subrange(i, a_end),
                        vis: s.subrange(a_end, v_end),
                        ident: id,
                        ty: s.subrange(t0, t_end),
                        assign: None,
                    },
                    t_end,
                ),
            )
        },
    }
}

/// One field starting at `i`: `[attrs] [vis] ident : ty [= expr]`
/// (named) or `[attrs] [vis] ty [= expr]` (positional).
pub open spec fn sp_field(s: Seq<Tok>, i: int, named: bool) -> Option<(FieldV, int)> {
    match sp_attrs(s, i) {
        None => None,
        Some(a_end) => match sp_vis(s, a_end) {
            None => None,
            Some(v_end) => if named {
                if v_end + 1 < s.len() && s[v_end + 1] == Tok::Punct(':') {
                    match s[v_end] {
                        Tok::Ident(id) => sp_field_tail(s, i, a_end, v_end, Some(id), v_end + 2),
                        _ => None,
                    }
                } else {
                    None
                }
            } else {
                sp_field_tail(s, i, a_end, v_end, None, v_end)
            },
        },
    }
}

/// A successfully parsed field covers exactly the tokens it was read
/// from: its source form is the input range, and it is well-formed.
pub proof fn lemma_sp_field_src(s: Seq<Tok>, i: int, named: bool)
    requires
        0 <= i <= s.len(),
    ensures
        match sp_field(s, i, named) {
            Some(r) => {
                &&& i < r.1 <= s.len()
                &&& field_src(r.0) == s.subrange(i, r.1)
                &&& field_wf(r.0, named)
            },
            None => true,
        },
{
    lemma_sp_attrs_range(s, i);
    match sp_attrs(s, i) {
        None => {},
        Some(a_end) => {
            lemma_sp_vis_range(s, a_end);
            match sp_vis(s, a_end) {
                None => {},
                Some(v_end) => {
                    if named {
                        if v_end + 1 < s.len() && s[v_end + 1] == Tok::Punct(':') {
                            match s[v_end] {
                                Tok::Ident(id) => {
                                    lemma_sp_field_tail_src(
                                        s,
                                        i,
                                        a_end,
                                        v_end,
                                        Some(id),
                                        v_end + 2,
                                    );
                                },
                                _ => {},
                            }
                        }
                    } else {
                        lemma_sp_field_tail_src(s, i, a_end, v_end, None, v_end);
                    }
                },
            }
        },
    }
}

pub proof fn lemma_sp_field_tail_src(
    s: Seq<Tok>,
    i: int,
    a_end: int,
    v_end: int,
    id: Option<String>,
    t0: int,
)
    requires
        0 <= i <= a_end <= v_end <= t0 <= s.len(),
        id is Some ==> {
            &&& t0 == v_end + 2
            &&& v_end + 1 < s.len()
            &&& s[v_end] == Tok::Ident(id->0)
            &&& s[v_end + 1] == Tok::Punct(':')
        },
        id is None ==> t0 == v_end,
    ensures
        match sp_field_tail(s, i, a_end, v_end, id, t0) {
            Some(r) => {
                &&& i < r.1 <= s.len()
                &&& field_src(r.0) == s.subrange(i, r.1)
                &&& field_wf(r.0, id is Some)
            },
            None => true,
        },
{
    lemma_sp_run_range(s, t0, 0, 0, true);
    match sp_run(s, t0, 0, 0, true) {
        None => {},
        Some(t_end) => {
            if t_end <= t0 {
            } else if t_end < s.len() && s[t_end] == Tok::Punct('=') {
                lemma_sp_run_range(s, t_end + 1, 0, 0, false);
                match sp_run(s, t_end + 1, 0, 0, false) {
                    None => {},
                    Some(e_end) => {
                        if e_end > t_end + 1 {
                            let r = sp_field_tail(s, i, a_end, v_end, id, t0)->0;
                            assert(field_src(r.0) =~= s.subrange(i, e_end));
                        }
                    },
                }
            } else {
                let r = sp_field_tail(s, i, a_end, v_end, id, t0)->0;
                assert(field_src(r.0) =~= s.subrange(i, t_end));
            }
        },
    }
}

/// A comma-separated field list starting at `i`, ending at (not
/// consuming) the closing delimiter of the surrounding group.
pub open spec fn sp_fields(s: Seq<Tok>, i: int, named: bool) -> Option<(Seq<FieldV>, bool, int)>
    decreases s.len() - i,
{
    if i < 0 || i >= s.len() {
        None
    } else if s[i] is Close {
        Some((Seq::<FieldV>::empty(), false, i))
    } else {
        match sp_field(s, i, named) {
            None => None,
            Some(r) => if r.1 >= s.len() {
                None
            } else if s[r.1] is Close {
                Some((seq![r.0], false, r.1))
            } else if s[r.1] == Tok::Punct(',') {
                proof {
                    lemma_sp_field_src(s, i, named);
                }
                match sp_fields(s, r.1 + 1, named) {
                    None => None,
                    Some(rest) => Some(
                        (
                            seq![r.0] + rest.0,
                            if rest.0.len() == 0 {
                                true
                            } else {
                                rest.1
                            },
                            rest.2,
                        ),
                    ),
                }
            } else {
                None
            },
        }
    }
}

/// A successfully parsed field list covers exactly the tokens it was
/// read from and stops at a closing delimiter.
pub proof fn lemma_sp_fields_src(s: Seq<Tok>, i: int, named: bool)
    requires
        0 <= i,
    ensures
        match sp_fields(s, i, named) {
            Some(r) => {
                &&& i <= r.2 < s.len()
                &&& s[r.2] is Close
                &&& fields_list_src(r.0, r.1) == s.subrange(i, r.2)
                &&& fields_list_wf(r.0, named)
            },
            None => true,
        },
    decreases s.len() - i,
{
    if i < 0 || i >= s.len() {
    } else if s[i] is Close {
        assert(fields_list_src(Seq::<FieldV>::empty(), false) =~= s.subrange(i, i));
    } else {
        lemma_sp_field_src(s, i, named);
        match sp_field(s, i, named) {
            None => {},
            Some(r) => {
                if r.1 >= s.len() {
                } else if s[r.1] is Close {
                    assert(fields_list_src(seq![r.0], false) =~= s.subrange(i, r.1));
                } else if s[r.1] == Tok::Punct(',') {
                    lemma_sp_fields_src(s, r.1 + 1, named);
                    match sp_fields(s, r.1 + 1, named) {
                        None => {},
                        Some(rest) => {
                            let all = seq![r.0] + rest.0;
                            let tr = if rest.0.len() == 0 {
                                true
                            } else {
                                rest.1
                            };
                            if rest.0.len() == 0 {
                                assert(all.len() == 1);
                                assert(all[0] == r.0);
                                assert(s.subrange(r.1 + 1, rest.2) =~= Seq::<Tok>::empty());
                                assert(fields_list_src(all, tr) =~= s.subrange(i, rest.2));
                            } else {
                                assert(all.len() >= 2);
                                assert(all[0] == r.0);
                                assert(all.drop_first() =~= rest.0);
                                assert(fields_list_src(all, tr) == field_src(r.0) + seq![
                                    Tok::Punct(','),
                                ] + fields_list_src(rest.0, tr));
                                assert(fields_list_src(all, tr) =~= s.subrange(i, rest.2));
                            }
                        },
                    }
                }
            },
        }
    }
}

/// A braced named-field list starting at `i`.
pub open spec fn sp_fields_named(s: Seq<Tok>, i: int) -> Option<(FieldsNamedV, int)> {
    if 0 <= i && i < s.len() && s[i] == Tok::Open(Delim::Brace) {
        match sp_fields(s, i + 1, true) {
            None => None,
            Some(r) => if s[r.2] == Tok::Close(Delim::Brace) {
                Some((FieldsNamedV { fields: r.0, trailing_comma: r.1 }, r.2 + 1))
            } else {
                None
            },
        }
    } else {
        None
    }
}

/// A parenthesized positional-field list starting at `i`.
pub open spec fn sp_fields_unnamed(s: Seq<Tok>, i: int) -> Option<(FieldsUnnamedV, int)> {
    if 0 <= i && i < s.len() && s[i] == Tok::Open(Delim::Paren) {
        match sp_fields(s, i + 1, false) {
            None => None,
            Some(r) => if s[r.2] == Tok::Close(Delim::Paren) {
                Some((FieldsUnnamedV { fields: r.0, trailing_comma: r.1 }, r.2 + 1))
            } else {
                None
            },
        }
    } else {
        None
    }
}

pub proof fn lemma_sp_fields_named_src(s: Seq<Tok>, i: int)
    requires
        0 <= i,
    ensures
        match sp_fields_named(s, i) {
            Some(r) => {
                &&& i < r.1 <= s.len()
                &&& fields_named_src(r.0) == s.subrange(i, r.1)
                &&& fields_list_wf(r.0.fields, true)
            },
            None => true,
        },
{
    if 0 <= i && i < s.len() && s[i] == Tok::Open(Delim::Brace) {
        lemma_sp_fields_src(s, i + 1, true);
        match sp_fields(s, i + 1, true) {
            None => {},
            Some(r) => {
                if s[r.2] == Tok::Close(Delim::Brace) {
                    let fv = FieldsNamedV { fields: r.0, trailing_comma: r.1 };
                    assert(fields_named_src(fv) =~= s.subrange(i, r.2 + 1));
                }
            },
        }
    }
}

pub proof fn lemma_sp_fields_unnamed_src(s: Seq<Tok>, i: int)
    requires
        0 <= i,
    ensures
        match sp_fields_unnamed(s, i) {
            Some(r) => {
                &&& i < r.1 <= s.len()
                &&& fields_unnamed_src(r.0) == s.subrange(i, r.1)
                &&& fields_list_wf(r.0.fields, false)
            },
            None => true,
        },
{
    if 0 <= i && i < s.len() && s[i] == Tok::Open(Delim::Paren) {
        lemma_sp_fields_src(s, i + 1, false);
        match sp_fields(s, i + 1, false) {
            None => {},
            Some(r) => {
                if s[r.2] == Tok::Close(Delim::Paren) {
                    let fv = FieldsUnnamedV { fields: r.0, trailing_comma: r.1 };
                    assert(fields_unnamed_src(fv) =~= s.subrange(i, r.2 + 1));
                }
            },
        }
    }
}

/// What may follow a positional field list: an optional trailing
/// where-clause, then the required statement terminator ending the
/// input.
pub open spec fn sp_ds_tuple_tail(s: Seq<Tok>, fu: FieldsUnnamedV, j: int) -> Option<
    DataStructV,
> {
    if j < s.len() && is_kw(s[j], "where"@) {
        match sp_where(s, j + 1, 0) {
            None => None,
            Some(w) => if w < s.len() && s[w] == Tok::Punct(';') && w + 1 == s.len() {
                Some(
                    DataStructV {
                        where_clause: Some(s.subrange(j, w)),
                        fields: FieldsV::Unnamed(fu),
                        semi: true,
                    },
                )
            } else {
                None
            },
        }
    } else if j < s.len() && s[j] == Tok::Punct(';') && j + 1 == s.len() {
        Some(DataStructV { where_clause: None, fields: FieldsV::Unnamed(fu), semi: true })
    } else {
        None
    }
}

/// The body proper after an optional leading where-clause: positional
/// fields (only without a leading clause), named fields, or a bare
/// statement terminator.
pub open spec fn sp_ds_after_where(s: Seq<Tok>, wc: Option<Seq<Tok>>, i: int) -> Option<
    DataStructV,
> {
    if i < s.len() && s[i] == Tok::Open(Delim::Paren) && wc is None {
        match sp_fields_unnamed(s, i) {
            None => None,
            Some(r) => sp_ds_tuple_tail(s, r.0, r.1),
        }
    } else if i < s.len() && s[i] == Tok::Open(Delim::Brace) {
        match sp_fields_named(s, i) {
            None => None,
            Some(r) => if r.1 == s.len() {
                Some(DataStructV { where_clause: wc, fields: FieldsV::Named(r.0), semi: false })
            } else {
                None
            },
        }
    } else if i < s.len() && s[i] == Tok::Punct(';') && i + 1 == s.len() {
        Some(DataStructV { where_clause: wc, fields: FieldsV::Unit, semi: true })
    } else {
        None
    }
}

/// A whole record body: optional leading where-clause, then the field
/// list, consuming the entire input.
pub open spec fn sp_data_struct(s: Seq<Tok>) -> Option<DataStructV> {
    if s.len() > 0 && is_kw(s[0], "where"@) {
        match sp_where(s, 1, 0) {
            None => None,
            Some(w) => sp_ds_after_where(s, Some(s.subrange(0, w)), w),
        }
    } else {
        sp_ds_after_where(s, None, 0)
    }
}

/// A successfully parsed record body re-renders to exactly the input,
/// is well-formed, and carries the statement terminator exactly for
/// the positional and unit forms.
pub proof fn lemma_sp_data_struct_src(s: Seq<Tok>)
    ensures
        match sp_data_struct(s) {
            Some(d) => {
                &&& ds_src(d) == s
                &&& fields_wf(d.fields)
                &&& d.semi == !(d.fields is Named)
            },
            None => true,
        },
{
    if s.len() > 0 && is_kw(s[0], "where"@) {
        lemma_sp_where_range(s, 1, 0);
        match sp_where(s, 1, 0) {
            None => {},
            Some(w) => lemma_sp_ds_after_where_src(s, Some(s.subrange(0, w)), w),
        }
    } else {
        assert(opt_run(None) =~= s.subrange(0, 0));
        lemma_sp_ds_after_where_src(s, None, 0);
    }
}

proof fn lemma_sp_ds_after_where_src(s: Seq<Tok>, wc: Option<Seq<Tok>>, i: int)
    requires
        0 <= i <= s.len(),
        opt_run(wc) == s.subrange(0, i),
    ensures
        match sp_ds_after_where(s, wc, i) {
            Some(d) => {
                &&& ds_src(d) == s
                &&& fields_wf(d.fields)
                &&& d.semi == !(d.fields is Named)
            },
            None => true,
        },
{
    if i < s.len() && s[i] == Tok::Open(Delim::Paren) && wc is None {
        lemma_sp_fields_unnamed_src(s, i);
        match sp_fields_unnamed(s, i) {
            None => {},
            Some(r) => {
                lemma_sp_ds_tuple_tail_src(s, r.0, r.1);
            },
        }
    } else if i < s.len() && s[i] == Tok::Open(Delim::Brace) {
        lemma_sp_fields_named_src(s, i);
        match sp_fields_named(s, i) {
            None => {},
            Some(r) => {
                if r.1 == s.len() {
                    let d = DataStructV {
                        where_clause: wc,
                        fields: FieldsV::Named(r.0),
                        semi: false,
                    };
                    assert(ds_src(d) =~= s);
                }
            },
        }
    } else if i < s.len() && s[i] == Tok::Punct(';') && i + 1 == s.len() {
        let d = DataStructV { where_clause: wc, fields: FieldsV::Unit, semi: true };
        assert(ds_src(d) =~= s);
    }
}

proof fn lemma_sp_ds_tuple_tail_src(s: Seq<Tok>, fu: FieldsUnnamedV, j: int)
    requires
        0 <= j <= s.len(),
        fields_unnamed_src(fu) == s.subrange(0, j),
        fields_list_wf(fu.fields, false),
    ensures
        match sp_ds_tuple_tail(s, fu, j) {
            Some(d) => {
                &&& ds_src(d) == s
                &&& fields_wf(d.fields)
                &&& d.semi == !(d.fields is Named)
            },
            None => true,
        },
{
    if j < s.len() && is_kw(s[j], "where"@) {
        lemma_sp_where_range(s, j + 1, 0);
        match sp_where(s, j + 1, 0) {
            None => {},
            Some(w) => {
                if w < s.len() && s[w] == Tok::Punct(';') && w + 1 == s.len() {
                    let d = DataStructV {
                        where_clause: Some(s.subrange(j, w)),
                        fields: FieldsV::Unnamed(fu),
                        semi: true,
                    };
                    assert(ds_src(d) =~= s);
                }
            },
        }
    } else if j < s.len() && s[j] == Tok::Punct(';') && j + 1 == s.len() {
        let d = DataStructV { where_clause: None, fields: FieldsV::Unnamed(fu), semi: true };
        assert(ds_src(d) =~= s);
    }
}

/// Agreement of an executable scan result with its specification.
pub open spec fn opt_agrees(r: Option<usize>, sp: Option<int>) -> bool {
    match r {
        Some(j) => sp == Some(j as int),
        None => sp is None,
    }
}

/// The specification value of an optional owned token run.
pub open spec fn opt_view(w: Option<Vec<Tok>>) -> Option<Seq<Tok>> {
    match w {
        Some(v) => Some(v@),
        None => None,
    }
}

pub(crate) fn is_punct(t: &Tok, c: char) -> (r: bool)
    ensures
        r == (*t == Tok::Punct(c)),
{
    match t {
        Tok::Punct(c2) => *c2 == c,
        _ => false,
    }
}

pub(crate) fn is_open(t: &Tok, d: Delim) -> (r: bool)
    ensures
        r == (*t == Tok::Open(d)),
{
    match t {
        Tok::Open(d2) => *d2 == d,
        _ => false,
    }
}

pub(crate) fn is_close(t: &Tok, d: Delim) -> (r: bool)
    ensures
        r == (*t == Tok::Close(d)),
{
    match t {
        Tok::Close(d2) => *d2 == d,
        _ => false,
    }
}

pub(crate) fn is_close_any(t: &Tok) -> (r: bool)
    ensures
        r == (*t is Close),
{
    match t {
        Tok::Close(_) => true,
        _ => false,
    }
}

pub(crate) fn tok_is_kw(t: &Tok, kw: &str) -> (r: bool)
    ensures
        r == is_kw(*t, kw@),
{
    match t {
        Tok::Ident(s) => str_is(s, kw),
        _ => false,
    }
}

/// Position just past the matching closing delimiter.
fn close_after(s: &Vec<Tok>, i: usize, depth: usize) -> (r: Option<usize>)
    requires
        1 <= depth <= i + 1,
        s@.len() < usize::MAX,
    ensures
        opt_agrees(r, sp_close(s@, i as int, depth as nat)),
    decreases s@.len() - i,
{
    if i >= s.len() {
        None
    } else {
        match &s[i] {
            Tok::Open(_) => close_after(s, i + 1, depth + 1),
            Tok::Close(_) => if depth == 1 {
                Some(i + 1)
            } else {
                close_after(s, i + 1, depth - 1)
            },
            _ => close_after(s, i + 1, depth),
        }
    }
}

/// End of a type or expression run (see `sp_run`).
fn run_end(s: &Vec<Tok>, i: usize, gdepth: usize, angle: usize, stop_eq: bool) -> (r: Option<
    usize,
>)
    requires
        gdepth <= i,
        angle <= i,
        i <= s@.len() < usize::MAX,
    ensures
        opt_agrees(r, sp_run(s@, i as int, gdepth as nat, angle as nat, stop_eq)),
    decreases s@.len() - i,
{
    if i >= s.len() {
        if gdepth == 0 {
            Some(i)
        } else {
            None
        }
    } else {
        match &s[i] {
            Tok::Open(_) => run_end(s, i + 1, gdepth + 1, angle, stop_eq),
            Tok::Close(_) => if gdepth == 0 {
                Some(i)
            } else {
                run_end(s, i + 1, gdepth - 1, angle, stop_eq)
            },
            Tok::Punct(c) => {
                let cc = *c;
                if gdepth == 0 && angle == 0 && (cc == ',' || (stop_eq && cc == '=')) {
                    Some(i)
                } else if gdepth == 0 && cc == '<' {
                    run_end(s, i + 1, 0, angle + 1, stop_eq)
                } else if gdepth == 0 && cc == '>' && angle > 0 {
                    run_end(s, i + 1, 0, angle - 1, stop_eq)
                } else {
                    run_end(s, i + 1, gdepth, angle, stop_eq)
                }
            },
            _ => run_end(s, i + 1, gdepth, angle, stop_eq),
        }
    }
}

/// End of an opaque where-clause run (see `sp_where`).
pub(crate) fn where_end(s: &Vec<Tok>, i: usize, gdepth: usize) -> (r: Option<usize>)
    requires
        gdepth <= i,
        i <= s@.len() < usize::MAX,
    ensures
        opt_agrees(r, sp_where(s@, i as int, gdepth as nat)),
    decreases s@.len() - i,
{
    if i >= s.len() {
        if gdepth == 0 {
            Some(i)
        } else {
            None
        }
    } else {
        match &s[i] {
            Tok::Open(d) => {
                let dd = *d;
                if gdepth == 0 && dd == Delim::Brace {
                    Some(i)
                } else {
                    where_end(s, i + 1, gdepth + 1)
                }
            },
            Tok::Close(_) => if gdepth == 0 {
                Some(i)
            } else {
                where_end(s, i + 1, gdepth - 1)
            },
            Tok::Punct(c) => if gdepth == 0 && *c == ';' {
                Some(i)
            } else {
                where_end(s, i + 1, gdepth)
            },
            _ => where_end(s, i + 1, gdepth),
        }
    }
}

/// End of the outer-attribute run (see `sp_attrs`).
fn attrs_end(s: &Vec<Tok>, i: usize) -> (r: Option<usize>)
    requires
        i <= s@.len() < usize::MAX,
    ensures
        opt_agrees(r, sp_attrs(s@, i as int)),
    decreases s@.len() - i,
{
    if i >= s.len() {
        Some(i)
    } else if is_punct(&s[i], '#') {
        if i + 1 < s.len() && is_open(&s[i + 1], Delim::Bracket) {
            match close_after(s, i + 2, 1) {
                None => None,
                Some(j) => {
                    proof {
                        lemma_sp_close_range(s@, (i + 2) as int, 1);
                    }
                    attrs_end(s, j)
                },
            }
        } else {
            None
        }
    } else {
        Some(i)
    }
}

/// End of the visibility run (see `sp_vis`).
fn vis_end(s: &Vec<Tok>, i: usize) -> (r: Option<usize>)
    requires
        i <= s@.len() < usize::MAX,
    ensures
        opt_agrees(r, sp_vis(s@, i as int)),
{
    if i >= s.len() {
        Some(i)
    } else if tok_is_kw(&s[i], "pub") {
        if i + 1 < s.len() && is_open(&s[i + 1], Delim::Paren) {
            close_after(s, i + 2, 1)
        } else {
            Some(i + 1)
        }
    } else {
        Some(i)
    }
}

fn parse_field_tail(
    s: &Vec<Tok>,
    i: usize,
    a_end: usize,
    v_end: usize,
    id: Option<String>,
    t0: usize,
) -> (r: Result<(Field, usize), Error>)
    requires
        i <= a_end <= v_end <= t0 <= s@.len() < usize::MAX,
    ensures
        match r {
            Ok(f) => {
                &&& sp_field_tail(s@, i as int, a_end as int, v_end as int, id, t0 as int)
                    == Some((f.0@, f.1 as int))
                &&& f.1 <= s@.len()
            },
            Err(e) => {
                &&& sp_field_tail(s@, i as int, a_end as int, v_end as int, id, t0 as int)
                    is None
                &&& e is Syntax
            },
        },
{
    let t_end = match run_end(s, t0, 0, 0, true) {
        Some(j) => j,
        None => {
            return Err(Error::Syntax(t0));
        },
    };
    proof {
        lemma_sp_run_range(s@, t0 as int, 0, 0, true);
    }
    if t_end <= t0 {
        return Err(Error::Syntax(t0));
    }
    if t_end < s.len() && is_punct(&s[t_end], '=') {
        let e_end = match run_end(s, t_end + 1, 0, 0, false) {
            Some(j) => j,
            None => {
                return Err(Error::Syntax(t_end));
            },
        };
        proof {
            lemma_sp_run_range(s@, (t_end + 1) as int, 0, 0, false);
        }
        if e_end <= t_end + 1 {
            return Err(Error::Syntax(t_end));
        }
        let f = Field {
            attrs: copy_range(s, i, a_end),
            vis: copy_range(s, a_end, v_end),
            ident: id,
            ty: copy_range(s, t0, t_end),
            assign: Some(copy_range(s, t_end + 1, e_end)),
        };
        Ok((f, e_end))
    } else {
        let f = Field {
            attrs: copy_range(s, i, a_end),
            vis: copy_range(s, a_end, v_end),
            ident: id,
            ty: copy_range(s, t0, t_end),
            assign: None,
        };
        Ok((f, t_end))
    }
}

fn parse_field(s: &Vec<Tok>, i: usize, named: bool) -> (r: Result<(Field, usize), Error>)
    requires
        i <= s@.len() < usize::MAX,
    ensures
        match r {
            Ok(f) => {
                &&& sp_field(s@, i as int, named) == Some((f.0@, f.1 as int))
                &&& f.1 <= s@.len()
            },
            Err(e) => sp_field(s@, i as int, named) is None && e is Syntax,
        },
{
    let a_end = match attrs_end(s, i) {
        Some(j) => j,
        None => {
            return Err(Error::Syntax(i));
        },
    };
    proof {
        lemma_sp_attrs_range(s@, i as int);
    }
    let v_end = match vis_end(s, a_end) {
        Some(j) => j,
        None => {
            return Err(Error::Syntax(a_end));
        },
    };
    proof {
        lemma_sp_vis_range(s@, a_end as int);
    }
    if named {
        if v_end + 1 < s.len() && is_punct(&s[v_end + 1], ':') {
            match &s[v_end] {
                Tok::Ident(id) => {
                    let ident = id.clone();
                    parse_field_tail(s, i, a_end, v_end, Some(ident), v_end + 2)
                },
                _ => Err(Error::Syntax(v_end)),
            }
        } else {
            Err(Error::Syntax(v_end))
        }
    } else {
        parse_field_tail(s, i, a_end, v_end, None, v_end)
    }
}

impl Field {
    /// Parse one named field (`[attrs] [vis] ident : ty [= expr]`)
    /// starting at token `i`.
    pub fn parse_named(s: &Vec<Tok>, i: usize) -> (r: Result<(Field, usize), Error>)
        requires
            i <= s@.len() < usize::MAX,
        ensures
            match r {
                Ok(f) => {
                    &&& sp_field(s@, i as int, true) == Some((f.0@, f.1 as int))
                    &&& f.1 <= s@.len()
                },
                Err(e) => sp_field(s@, i as int, true) is None && e is Syntax,
            },
    {
        parse_field(s, i, true)
    }

    /// Parse one positional field (`[attrs] [vis] ty [= expr]`)
    /// starting at token `i`.
    pub fn parse_unnamed(s: &Vec<Tok>, i: usize) -> (r: Result<(Field, usize), Error>)
        requires
            i <= s@.len() < usize::MAX,
        ensures
            match r {
                Ok(f) => {
                    &&& sp_field(s@, i as int, false) == Some((f.0@, f.1 as int))
                    &&& f.1 <= s@.len()
                },
                Err(e) => sp_field(s@, i as int, false) is None && e is Syntax,
            },
    {
        parse_field(s, i, false)
    }
}

fn parse_fields_list(s: &Vec<Tok>, i: usize, named: bool) -> (r: Result<
    (Vec<Field>, bool, usize),
    Error,
>)
    requires
        i <= s@.len() < usize::MAX,
    ensures
        match r {
            Ok(t) => {
                &&& sp_fields(s@, i as int, named) == Some((t.0.deep_view(), t.1, t.2 as int))
                &&& t.2 < s@.len()
            },
            Err(e) => sp_fields(s@, i as int, named) is None && e is Syntax,
        },
    decreases s@.len() - i,
{
    if i >= s.len() {
        return Err(Error::Syntax(i));
    }
    if is_close_any(&s[i]) {
        let v: Vec<Field> = Vec::new();
        proof {
            assert(v.deep_view() =~= Seq::<FieldV>::empty());
        }
        return Ok((v, false, i));
    }
    let (f, j) = match parse_field(s, i, named) {
        Ok(t) => t,
        Err(e) => {
            return Err(e);
        },
    };
    proof {
        lemma_sp_field_src(s@, i as int, named);
    }
    if j >= s.len() {
        return Err(Error::Syntax(j));
    }
    if is_close_any(&s[j]) {
        let ghost fv = f@;
        let mut v: Vec<Field> = Vec::new();
        v.push(f);
        proof {
            assert(v.deep_view() =~= seq![fv]);
        }
        return Ok((v, false, j));
    }
    if is_punct(&s[j], ',') {
        match parse_fields_list(s, j + 1, named) {
            Ok((mut rest, tr, k)) => {
                let ghost fv = f@;
                let ghost rq = rest@;
                let ghost rdv = rest.deep_view();
                let tr2 = if rest.len() == 0 {
                    true
                } else {
                    tr
                };
                rest.insert(0, f);
                proof {
                    assert forall|q: int|
                        0 <= q < rest.deep_view().len() implies rest.deep_view()[q] == (seq![fv]
                        + rdv)[q] by {
                        if q == 0 {
                            assert(rest@[0] == f);
                        } else {
                            assert(rest@[q] == rq[q - 1]);
                            assert(rdv[q - 1] == rq[q - 1]@);
                        }
                    }
                    assert(rest.deep_view() =~= seq![fv] + rdv);
                }
                Ok((rest, tr2, k))
            },
            Err(e) => Err(e),
        }
    } else {
        Err(Error::Syntax(j))
    }
}

impl FieldsNamed {
    /// Parse a braced named-field list starting at token `i`.
    pub fn parse(s: &Vec<Tok>, i: usize) -> (r: Result<(FieldsNamed, usize), Error>)
        requires
            i <= s@.len() < usize::MAX,
        ensures
            match r {
                Ok(t) => {
                    &&& sp_fields_named(s@, i as int) == Some((t.0@, t.1 as int))
                    &&& t.1 <= s@.len()
                },
                Err(e) => sp_fields_named(s@, i as int) is None && e is Syntax,
            },
    {
        if i < s.len() && is_open(&s[i], Delim::Brace) {
            match parse_fields_list(s, i + 1, true) {
                Ok((v, tr, j)) => if is_close(&s[j], Delim::Brace) {
                    Ok((FieldsNamed { fields: v, trailing_comma: tr }, j + 1))
                } else {
                    Err(Error::Syntax(j))
                },
                Err(e) => Err(e),
            }
        } else {
            Err(Error::Syntax(i))
        }
    }
}

impl FieldsUnnamed {
    /// Parse a parenthesized positional-field list starting at token
    /// `i`.
    pub fn parse(s: &Vec<Tok>, i: usize) -> (r: Result<(FieldsUnnamed, usize), Error>)
        requires
            i <= s@.len() < usize::MAX,
        ensures
            match r {
                Ok(t) => {
                    &&& sp_fields_unnamed(s@, i as int) == Some((t.0@, t.1 as int))
                    &&& t.1 <= s@.len()
                },
                Err(e) => sp_fields_unnamed(s@, i as int) is None && e is Syntax,
            },
    {
        if i < s.len() && is_open(&s[i], Delim::Paren) {
            match parse_fields_list(s, i + 1, false) {
                Ok((v, tr, j)) => if is_close(&s[j], Delim::Paren) {
                    Ok((FieldsUnnamed { fields: v, trailing_comma: tr }, j + 1))
                } else {
                    Err(Error::Syntax(j))
                },
                Err(e) => Err(e),
            }
        } else {
            Err(Error::Syntax(i))
        }
    }
}

fn ds_tuple_tail(s: &Vec<Tok>, fu: FieldsUnnamed, j: usize) -> (r: Result<DataStruct, Error>)
    requires
        j <= s@.len() < usize::MAX,
    ensures
        match r {
            Ok(d) => sp_ds_tuple_tail(s@, fu@, j as int) == Some(d@),
            Err(e) => sp_ds_tuple_tail(s@, fu@, j as int) is None && e is Syntax,
        },
{
    if j < s.len() && tok_is_kw(&s[j], "where") {
        match where_end(s, j + 1, 0) {
            Some(w) => {
                proof {
                    lemma_sp_where_range(s@, (j + 1) as int, 0);
                }
                if w < s.len() && is_punct(&s[w], ';') && w + 1 == s.len() {
                    Ok(
                        DataStruct {
                            where_clause: Some(copy_range(s, j, w)),
                            fields: Fields::Unnamed(fu),
                            semi: true,
                        },
                    )
                } else {
                    Err(Error::Syntax(w))
                }
            },
            None => Err(Error::Syntax(j)),
        }
    } else if j < s.len() && is_punct(&s[j], ';') && j + 1 == s.len() {
        Ok(DataStruct { where_clause: None, fields: Fields::Unnamed(fu), semi: true })
    } else {
        Err(Error::Syntax(j))
    }
}

fn ds_after_where(s: &Vec<Tok>, wc: Option<Vec<Tok>>, i: usize) -> (r: Result<DataStruct, Error>)
    requires
        i <= s@.len() < usize::MAX,
    ensures
        match r {
            Ok(d) => sp_ds_after_where(s@, opt_view(wc), i as int) == Some(d@),
            Err(e) => sp_ds_after_where(s@, opt_view(wc), i as int) is None && e is Syntax,
        },
{
    let wc_none = match &wc {
        Some(_) => false,
        None => true,
    };
    if i < s.len() && is_open(&s[i], Delim::Paren) && wc_none {
        match FieldsUnnamed::parse(s, i) {
            Ok((fu, j)) => ds_tuple_tail(s, fu, j),
            Err(e) => Err(e),
        }
    } else if i < s.len() && is_open(&s[i], Delim::Brace) {
        match FieldsNamed::parse(s, i) {
            Ok((fx, j)) => if j == s.len() {
                Ok(DataStruct { where_clause: wc, fields: Fields::Named(fx), semi: false })
            } else {
                Err(Error::Syntax(j))
            },
            Err(e) => Err(e),
        }
    } else if i < s.len() && is_punct(&s[i], ';') && i + 1 == s.len() {
        Ok(DataStruct { where_clause: wc, fields: Fields::Unit, semi: true })
    } else {
        Err(Error::Syntax(i))
    }
}

/// Parse a whole record body: optional leading where-clause, then
/// named, positional or unit fields; the parsed body re-renders to
/// exactly the input tokens (`lemma_sp_data_struct_src`).
pub fn data_struct(s: &Vec<Tok>) -> (r: Result<DataStruct, Error>)
    requires
        s@.len() < usize::MAX,
    ensures
        match r {
            Ok(d) => sp_data_struct(s@) == Some(d@) && ds_src(d@) == s@ && fields_wf(d@.fields),
            Err(e) => sp_data_struct(s@) is None && e is Syntax,
        },
{
    proof {
        lemma_sp_data_struct_src(s@);
    }
    if s.len() > 0 && tok_is_kw(&s[0], "where") {
        match where_end(s, 1, 0) {
            Some(w) => {
                proof {
                    lemma_sp_where_range(s@, 1, 0);
                }
                ds_after_where(s, Some(copy_range(s, 0, w)), w)
            },
            None => Err(Error::Syntax(0)),
        }
    } else {
        ds_after_where(s, None, 0)
    }
}

} // verus!
