//! Diagnostics: every failure is a kind together with the token
//! position it points at.  Failures are fail-soft: one invocation's
//! diagnostic never aborts sibling invocations.

use vstd::prelude::*;

verus! {

/// A diagnostic kind with the token position it points at.
#[derive(Clone, Copy, PartialEq, Eq, Debug, Structural)]
pub enum Error {
    /// Malformed field-list or invocation argument syntax.
    Syntax(usize),
    /// `ignore` or `using` applied to a capability that does not
    /// support it.
    UnsupportedModifier(usize),
    /// A per-field default-value expression reached a rendering path
    /// that does not consume it.
    DanglingDefaultExpression(usize),
    /// Default-construction with no expression used outside a
    /// declaration context.
    MissingContext(usize),
    /// Default-construction with an explicit expression applied to an
    /// item that is not a record, enumeration, type-alias or union.
    UnsupportedItemKind(usize),
}

} // verus!
