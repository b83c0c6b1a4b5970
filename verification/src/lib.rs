//! Code generation for a small set of built-in capabilities (copy,
//! debug-formatting, default-construction) over record declarations,
//! driven by per-field directives.
//!
//! The library works on a normalized token model of its own: a record
//! body is parsed into a field list extended with an optional per-field
//! default-value expression, and each capability generator renders an
//! implementation fragment as a sequence of opaque syntax tokens.

pub mod autoimpl;
pub mod default;
pub mod errors;
pub mod fields;
pub mod modifiers;
pub mod parse;
pub mod registry;
pub mod render;
pub mod tokens;

use vstd::prelude::*;

verus! {

/// A fully-qualified capability name: path segments, leading segment
/// empty for an absolute path.
pub struct SimplePath {
    pub segments: Vec<String>,
}

impl SimplePath {
    pub open spec fn view_segments(&self) -> Seq<Seq<char>> {
        self.segments.deep_view()
    }

    /// Build a path from string segments.
    pub fn new(segments: &[&str]) -> (r: SimplePath)
        ensures
            r.view_segments().len() == segments@.len(),
            forall|i: int| 0 <= i < segments@.len() ==> r.view_segments()[i] == segments@[i]@,
    {
        let mut v: Vec<String> = Vec::new();
        let mut i: usize = 0;
        while i < segments.len()
            invariant
                i <= segments.len(),
                v@.len() == i,
                forall|k: int| 0 <= k < i ==> v@[k]@ == segments@[k]@,
            decreases segments.len() - i,
        {
            v.push(segments[i].to_owned());
            i += 1;
        }
        proof {
            assert forall|k: int| 0 <= k < segments@.len() implies v.deep_view()[k]
                == segments@[k]@ by {
                assert(v.deep_view()[k] == v@[k].deep_view());
            }
        }
        SimplePath { segments: v }
    }
}

} // verus!
