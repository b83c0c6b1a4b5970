//! The normalized field-list model: a record body is either a braced
//! list of named fields, a parenthesized list of positional fields, or
//! empty.  Each field carries its attribute and visibility token runs,
//! its type expression as an opaque token run, and an optional
//! default-value expression — the one extension over the host
//! language's native record syntax.

use vstd::prelude::*;

use crate::tokens::{Delim, Tok};

verus! {

/// One field of a record declaration.
pub struct Field {
    /// Attribute tokens (`# [ ... ]` runs), echoed unchanged.
    pub attrs: Vec<Tok>,
    /// Visibility tokens, echoed unchanged.
    pub vis: Vec<Tok>,
    /// The field's identifier; present exactly for named fields.
    pub ident: Option<String>,
    /// The type expression, opaque and only echoed.
    pub ty: Vec<Tok>,
    /// The attached default-value expression, if any.
    pub assign: Option<Vec<Tok>>,
}

/// The mathematical value of a `Field`.
pub ghost struct FieldV {
    pub attrs: Seq<Tok>,
    pub vis: Seq<Tok>,
    pub ident: Option<String>,
    pub ty: Seq<Tok>,
    pub assign: Option<Seq<Tok>>,
}

impl View for Field {
    type V = FieldV;

    open spec fn view(&self) -> FieldV {
        FieldV {
            attrs: self.attrs@,
            vis: self.vis@,
            ident: self.ident,
            ty: self.ty@,
            assign: match self.assign {
                Some(e) => Some(e@),
                None => None,
            },
        }
    }
}

impl DeepView for Field {
    type V = FieldV;

    open spec fn deep_view(&self) -> FieldV {
        self.view()
    }
}

/// Well-formedness of one field: the identifier is present exactly for
/// named fields, and the type expression is non-empty.
pub open spec fn field_wf(f: FieldV, named: bool) -> bool {
    &&& f.ident is Some <==> named
    &&& f.ty.len() > 0
    &&& match f.assign {
        Some(e) => e.len() > 0,
        None => true,
    }
}

/// A brace-delimited list of named fields.
pub struct FieldsNamed {
    pub fields: Vec<Field>,
    /// Whether the source list ended with a trailing comma.
    pub trailing_comma: bool,
}

/// A parenthesis-delimited list of positional fields.
pub struct FieldsUnnamed {
    pub fields: Vec<Field>,
    /// Whether the source list ended with a trailing comma.
    pub trailing_comma: bool,
}

/// The field-list variant of one record declaration.
pub enum Fields {
    Named(FieldsNamed),
    Unnamed(FieldsUnnamed),
    Unit,
}

pub ghost struct FieldsNamedV {
    pub fields: Seq<FieldV>,
    pub trailing_comma: bool,
}

pub ghost struct FieldsUnnamedV {
    pub fields: Seq<FieldV>,
    pub trailing_comma: bool,
}

pub ghost enum FieldsV {
    Named(FieldsNamedV),
    Unnamed(FieldsUnnamedV),
    Unit,
}

impl View for FieldsNamed {
    type V = FieldsNamedV;

    open spec fn view(&self) -> FieldsNamedV {
        FieldsNamedV { fields: self.fields.deep_view(), trailing_comma: self.trailing_comma }
    }
}

impl View for FieldsUnnamed {
    type V = FieldsUnnamedV;

    open spec fn view(&self) -> FieldsUnnamedV {
        FieldsUnnamedV { fields: self.fields.deep_view(), trailing_comma: self.trailing_comma }
    }
}

impl View for Fields {
    type V = FieldsV;

    open spec fn view(&self) -> FieldsV {
        match self {
            Fields::Named(f) => FieldsV::Named(f@),
            Fields::Unnamed(f) => FieldsV::Unnamed(f@),
            Fields::Unit => FieldsV::Unit,
        }
    }
}

pub open spec fn fields_list_wf(fs: Seq<FieldV>, named: bool) -> bool {
    forall|i: int| 0 <= i < fs.len() ==> field_wf(#[trigger] fs[i], named)
}

pub open spec fn fields_wf(fs: FieldsV) -> bool {
    match fs {
        FieldsV::Named(f) => fields_list_wf(f.fields, true),
        FieldsV::Unnamed(f) => fields_list_wf(f.fields, false),
        FieldsV::Unit => true,
    }
}

/// The source-token form of one field, default-value expression
/// included: `[attrs] [vis] [ident :] ty [= expr]`.
pub open spec fn field_src(f: FieldV) -> Seq<Tok> {
    f.attrs + f.vis + (match f.ident {
        Some(id) => seq![Tok::Ident(id), Tok::Punct(':')],
        None => Seq::<Tok>::empty(),
    }) + f.ty + (match f.assign {
        Some(e) => seq![Tok::Punct('=')] + e,
        None => Seq::<Tok>::empty(),
    })
}

/// The source-token form of a comma-separated field list.
pub open spec fn fields_list_src(fs: Seq<FieldV>, trailing: bool) -> Seq<Tok>
    decreases fs.len(),
{
    if fs.len() == 0 {
        Seq::<Tok>::empty()
    } else if fs.len() == 1 {
        field_src(fs[0]) + if trailing {
            seq![Tok::Punct(',')]
        } else {
            Seq::<Tok>::empty()
        }
    } else {
        field_src(fs[0]) + seq![Tok::Punct(',')] + fields_list_src(fs.drop_first(), trailing)
    }
}

/// The source-token form of a braced named-field list.
pub open spec fn fields_named_src(f: FieldsNamedV) -> Seq<Tok> {
    seq![Tok::Open(Delim::Brace)] + fields_list_src(f.fields, f.trailing_comma) + seq![
        Tok::Close(Delim::Brace),
    ]
}

/// The source-token form of a parenthesized positional-field list.
pub open spec fn fields_unnamed_src(f: FieldsUnnamedV) -> Seq<Tok> {
    seq![Tok::Open(Delim::Paren)] + fields_list_src(f.fields, f.trailing_comma) + seq![
        Tok::Close(Delim::Paren),
    ]
}

/// A field with its default-value expression discharged.
pub open spec fn field_stripped(f: FieldV) -> FieldV {
    FieldV { assign: None, ..f }
}

/// A parsed record body: an optional opaque where-clause run (its
/// `where` keyword included), the field list, and whether a statement
/// terminator closed it.
pub struct DataStruct {
    pub where_clause: Option<Vec<Tok>>,
    pub fields: Fields,
    pub semi: bool,
}

pub ghost struct DataStructV {
    pub where_clause: Option<Seq<Tok>>,
    pub fields: FieldsV,
    pub semi: bool,
}

/// The normalized representation of one record declaration: its name,
/// its opaque generic-parameter token run, and its field-list variant.
/// It is read by every generator and never mutated.
pub struct TypeDescriptor {
    pub ident: String,
    pub generics: Vec<Tok>,
    pub fields: Fields,
}

pub ghost struct TypeDescriptorV {
    pub ident: String,
    pub generics: Seq<Tok>,
    pub fields: FieldsV,
}

impl View for TypeDescriptor {
    type V = TypeDescriptorV;

    open spec fn view(&self) -> TypeDescriptorV {
        TypeDescriptorV { ident: self.ident, generics: self.generics@, fields: self.fields@ }
    }
}

/// The tokens of an optional opaque run.
pub open spec fn opt_run(w: Option<Seq<Tok>>) -> Seq<Tok> {
    match w {
        Some(t) => t,
        None => Seq::<Tok>::empty(),
    }
}

/// The source-token form of a whole record body.  A where-clause run
/// carries its own `where` keyword; the positional and unit forms end
/// with the statement terminator.
pub open spec fn ds_src(d: DataStructV) -> Seq<Tok> {
    match d.fields {
        FieldsV::Named(f) => opt_run(d.where_clause) + fields_named_src(f),
        FieldsV::Unnamed(f) => fields_unnamed_src(f) + opt_run(d.where_clause) + seq![
            Tok::Punct(';'),
        ],
        FieldsV::Unit => opt_run(d.where_clause) + seq![Tok::Punct(';')],
    }
}

impl View for DataStruct {
    type V = DataStructV;

    open spec fn view(&self) -> DataStructV {
        DataStructV {
            where_clause: match self.where_clause {
                Some(w) => Some(w@),
                None => None,
            },
            fields: self.fields@,
            semi: self.semi,
        }
    }
}

} // verus!
