//! Source locations and diagnostics.
//!
//! Every node of the input carries the source span it was read from, so that
//! a diagnostic about a field, a pattern element, or a whole declaration can
//! point at exactly that construct rather than at the annotation site.

use vstd::prelude::*;

verus! {

/// A half-open range of positions in the caller's source text.
#[derive(Clone, Copy, Debug, PartialEq, Eq, Structural)]
pub struct Span {
    pub lo: u32,
    pub hi: u32,
}

impl Span {
    /// The smallest span covering both `self` and `other`.
    pub fn join(self, other: Span) -> (r: Span)
        ensures
            r == self.spec_join(other),
    {
        Span {
            lo: if self.lo <= other.lo {
                self.lo
            } else {
                other.lo
            },
            hi: if self.hi >= other.hi {
                self.hi
            } else {
                other.hi
            },
        }
    }

    pub open spec fn spec_join(self, other: Span) -> Span {
        Span {
            lo: if self.lo <= other.lo {
                self.lo
            } else {
                other.lo
            },
            hi: if self.hi >= other.hi {
                self.hi
            } else {
                other.hi
            },
        }
    }
}

/// The span and message text of each collected diagnostic, in order: the
/// shape the engine's contracts state diagnostics in.
pub open spec fn diags_proj(s: Seq<Diag>) -> Seq<(Span, Seq<char>)> {
    s.map_values(|d: Diag| (d.span, d.msg@))
}

/// One collected error: a message attached to the span of the offending
/// construct.
#[derive(Debug, PartialEq, Eq)]
pub struct Diag {
    pub span: Span,
    pub msg: String,
}

impl Diag {
    pub fn new(span: Span, msg: &str) -> (r: Diag)
        ensures
            r.span == span,
            r.msg@ == msg@,
    {
        Diag { span, msg: String::from_str(msg) }
    }
}

} // verus!
