//! Per-invocation field modifiers: a set of ignored field identities
//! and at most one delegate field, validated against the two support
//! flags a capability declares.

use vstd::prelude::*;

use crate::errors::Error;
use crate::tokens::str_is;

verus! {

/// A field identity: by name for named records, by position index for
/// positional records.
pub enum FieldIdent {
    Named(String),
    Unnamed(usize),
}

/// Whether the ignore set contains the named field.
pub open spec fn set_ignores_named(ig: Seq<FieldIdent>, name: Seq<char>) -> bool {
    exists|q: int|
        0 <= q < ig.len() && ((#[trigger] ig[q]) matches FieldIdent::Named(s) && s@ == name)
}

/// Whether the ignore set contains the positional field.
pub open spec fn set_ignores_unnamed(ig: Seq<FieldIdent>, index: int) -> bool {
    exists|q: int|
        0 <= q < ig.len() && ((#[trigger] ig[q]) matches FieldIdent::Unnamed(k) && k == index)
}

/// The modifiers of one capability invocation.
pub struct ModifierSet {
    /// Fields excluded from normal handling.
    pub ignored: Vec<FieldIdent>,
    /// The single field a capability may delegate to.
    pub using_field: Option<FieldIdent>,
}

impl ModifierSet {
    /// An invocation with no modifiers.
    pub fn none() -> (r: ModifierSet)
        ensures
            r.ignored@.len() == 0,
            r.using_field is None,
    {
        ModifierSet { ignored: Vec::new(), using_field: None }
    }

    /// Whether the named field is marked ignored.
    pub fn ignore_named(&self, name: &String) -> (r: bool)
        ensures
            r == set_ignores_named(self.ignored@, name@),
    {
        let mut q: usize = 0;
        while q < self.ignored.len()
            invariant
                q <= self.ignored@.len(),
                forall|k: int|
                    0 <= k < q ==> !((#[trigger] self.ignored@[k]) matches FieldIdent::Named(s)
                        && s@ == name@),
            decreases self.ignored@.len() - q,
        {
            match &self.ignored[q] {
                FieldIdent::Named(s) => {
                    if str_is(s, name.as_str()) {
                        return true;
                    }
                },
                FieldIdent::Unnamed(_) => {},
            }
            q += 1;
        }
        false
    }

    /// Whether the positional field at `index` is marked ignored.
    pub fn ignore_unnamed(&self, index: usize) -> (r: bool)
        ensures
            r == set_ignores_unnamed(self.ignored@, index as int),
    {
        let mut q: usize = 0;
        while q < self.ignored.len()
            invariant
                q <= self.ignored@.len(),
                forall|k: int|
                    0 <= k < q ==> !((#[trigger] self.ignored@[k]) matches FieldIdent::Unnamed(j)
                        && j == index),
            decreases self.ignored@.len() - q,
        {
            match &self.ignored[q] {
                FieldIdent::Unnamed(j) => {
                    if *j == index {
                        return true;
                    }
                },
                FieldIdent::Named(_) => {},
            }
            q += 1;
        }
        false
    }

    /// Validate this modifier set against a capability's support
    /// flags: `ignore` needs `support_ignore`, `using` needs
    /// `support_using`.  Exactly the unsupported combinations are
    /// rejected, with an `UnsupportedModifier` diagnostic at `span`.
    pub fn validate(&self, support_ignore: bool, support_using: bool, span: usize) -> (r: Result<
        (),
        Error,
    >)
        ensures
            r is Ok <==> ((support_ignore || self.ignored@.len() == 0) && (support_using
                || self.using_field is None)),
            r matches Err(e) ==> e == Error::UnsupportedModifier(span),
    {
        if !support_ignore && self.ignored.len() > 0 {
            return Err(Error::UnsupportedModifier(span));
        }
        match &self.using_field {
            Some(_) => {
                if !support_using {
                    return Err(Error::UnsupportedModifier(span));
                }
            },
            None => {},
        }
        Ok(())
    }
}

} // verus!
