//! The closed capability registry: a fixed set of generators selected
//! by fully-qualified name.  One invocation is validated against the
//! capability's support flags and then rendered; a whole pass runs
//! every invocation independently, so one failure never suppresses a
//! sibling's fragment.

use vstd::prelude::*;

use crate::autoimpl::{
    sp_clone_fragment, sp_debug_fragment, sp_dflt_fragment, ImplClone, ImplDebug, ImplDefault,
};
use crate::errors::Error;
use crate::fields::{fields_wf, TypeDescriptor, TypeDescriptorV};
use crate::modifiers::{FieldIdent, ModifierSet};
use crate::tokens::{str_is, toks_dv, Tok, TokV};
use crate::SimplePath;

verus! {

/// The closed set of built-in capabilities.
#[derive(Clone, Copy, PartialEq, Eq, Debug, Structural)]
pub enum Capability {
    CopyCapability,
    DebugCapability,
    DefaultCapability,
}

/// Whether a capability honors `ignore`; fixed per capability.
pub open spec fn cap_supports_ignore(c: Capability) -> bool {
    match c {
        Capability::CopyCapability => true,
        Capability::DebugCapability => true,
        Capability::DefaultCapability => false,
    }
}

/// Whether a capability honors `using`; no built-in one delegates.
pub open spec fn cap_supports_using(c: Capability) -> bool {
    false
}

pub open spec fn clone_path() -> Seq<Seq<char>> {
    seq![""@, "core"@, "clone"@, "Clone"@]
}

pub open spec fn debug_path() -> Seq<Seq<char>> {
    seq![""@, "core"@, "fmt"@, "Debug"@]
}

pub open spec fn default_path() -> Seq<Seq<char>> {
    seq![""@, "core"@, "default"@, "Default"@]
}

/// Selection by fully-qualified name against the closed registry.
pub open spec fn sp_lookup(p: Seq<Seq<char>>) -> Option<Capability> {
    if p == clone_path() {
        Some(Capability::CopyCapability)
    } else if p == debug_path() {
        Some(Capability::DebugCapability)
    } else if p == default_path() {
        Some(Capability::DefaultCapability)
    } else {
        None
    }
}

fn path_is4(p: &SimplePath, a: &str, b: &str, c: &str, d: &str) -> (r: bool)
    ensures
        r == (p.view_segments() == seq![a@, b@, c@, d@]),
{
    if p.segments.len() != 4 {
        proof {
            assert(p.view_segments().len() == p.segments@.len());
        }
        return false;
    }
    let r = str_is(&p.segments[0], a) && str_is(&p.segments[1], b) && str_is(&p.segments[2], c)
        && str_is(&p.segments[3], d);
    proof {
        if r {
            assert(p.view_segments() =~= seq![a@, b@, c@, d@]);
        } else {
            assert(p.view_segments() != seq![a@, b@, c@, d@]);
        }
    }
    r
}

/// Find the capability a fully-qualified name selects, if any.
pub fn lookup(path: &SimplePath) -> (r: Option<Capability>)
    ensures
        r == sp_lookup(path.view_segments()),
{
    if path_is4(path, "", "core", "clone", "Clone") {
        Some(Capability::CopyCapability)
    } else if path_is4(path, "", "core", "fmt", "Debug") {
        Some(Capability::DebugCapability)
    } else if path_is4(path, "", "core", "default", "Default") {
        Some(Capability::DefaultCapability)
    } else {
        None
    }
}

/// The outcome of one capability invocation: its fragment, or the
/// diagnostic that suppressed exactly that fragment.
pub open spec fn sp_apply(
    c: Capability,
    d: TypeDescriptorV,
    ig: Seq<FieldIdent>,
    using_field: Option<FieldIdent>,
    span: usize,
) -> Result<Seq<TokV>, Error> {
    if !(cap_supports_ignore(c) || ig.len() == 0) || !(cap_supports_using(c) || using_field
        is None) {
        Err(Error::UnsupportedModifier(span))
    } else {
        match c {
            Capability::CopyCapability => Ok(sp_clone_fragment(d, ig)),
            Capability::DebugCapability => Ok(sp_debug_fragment(d, ig)),
            Capability::DefaultCapability => Ok(sp_dflt_fragment(d)),
        }
    }
}

/// Agreement of one executable outcome with its specification.
pub open spec fn res_agrees(r: Result<Vec<Tok>, Error>, sp: Result<Seq<TokV>, Error>) -> bool {
    match r {
        Ok(v) => sp is Ok && toks_dv(v@) == sp->Ok_0,
        Err(e) => sp == Err::<Seq<TokV>, Error>(e),
    }
}

/// Run one capability invocation: validate the modifier set against
/// the capability's support flags, then render its fragment.
pub fn apply(cap: &Capability, item: &TypeDescriptor, args: &ModifierSet, span: usize) -> (r:
    Result<Vec<Tok>, Error>)
    requires
        fields_wf(item@.fields),
    ensures
        res_agrees(r, sp_apply(*cap, item@, args.ignored@, args.using_field, span)),
{
    let (si, su): (bool, bool) = match cap {
        Capability::CopyCapability => (true, false),
        Capability::DebugCapability => (true, false),
        Capability::DefaultCapability => (false, false),
    };
    match args.validate(si, su, span) {
        Err(e) => Err(e),
        Ok(()) => match cap {
            Capability::CopyCapability => {
                let g = ImplClone;
                g.struct_items(item, args)
            },
            Capability::DebugCapability => {
                let g = ImplDebug;
                g.struct_items(item, args)
            },
            Capability::DefaultCapability => {
                let g = ImplDefault;
                g.struct_items(item, args)
            },
        },
    }
}

/// Run a whole pass: every invocation against the same immutable
/// descriptor, in order, each judged by its own modifiers alone —
/// one diagnostic suppresses only its own fragment.
pub fn apply_all(item: &TypeDescriptor, invocations: &Vec<(Capability, ModifierSet)>) -> (r: Vec<
    Result<Vec<Tok>, Error>,
>)
    requires
        fields_wf(item@.fields),
    ensures
        r@.len() == invocations@.len(),
        forall|k: int|
            0 <= k < invocations@.len() ==> res_agrees(
                #[trigger] r@[k],
                sp_apply(
                    invocations@[k].0,
                    item@,
                    invocations@[k].1.ignored@,
                    invocations@[k].1.using_field,
                    k as usize,
                ),
            ),
{
    let mut r: Vec<Result<Vec<Tok>, Error>> = Vec::new();
    let mut k: usize = 0;
    while k < invocations.len()
        invariant
            k <= invocations@.len(),
            r@.len() == k,
            fields_wf(item@.fields),
            forall|q: int|
                0 <= q < k ==> res_agrees(
                    #[trigger] r@[q],
                    sp_apply(
                        invocations@[q].0,
                        item@,
                        invocations@[q].1.ignored@,
                        invocations@[q].1.using_field,
                        q as usize,
                    ),
                ),
        decreases invocations@.len() - k,
    {
        let inv = &invocations[k];
        r.push(apply(&inv.0, item, &inv.1, k));
        k += 1;
    }
    r
}

/// A modifier a capability does not support is always rejected with
/// `UnsupportedModifier`, and no fragment is emitted for that
/// invocation; by `apply_all`, every sibling invocation's outcome is
/// determined by its own modifiers alone and still runs.
pub proof fn lemma_unsupported_ignore_rejected(
    c: Capability,
    d: TypeDescriptorV,
    ig: Seq<FieldIdent>,
    using_field: Option<FieldIdent>,
    span: usize,
)
    requires
        !cap_supports_ignore(c),
        ig.len() > 0,
    ensures
        sp_apply(c, d, ig, using_field, span) == Err::<Seq<TokV>, Error>(
            Error::UnsupportedModifier(span),
        ),
{
}

} // verus!
