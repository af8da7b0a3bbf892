//! The synthesized generator body.
//!
//! Both producers emit the same shape: a list of recursive-generation
//! bindings (one per field), followed by one quoted template expression with
//! an interpolation marker per binding. Each binding carries the source span
//! of the field or pattern element it came from, so that an ungenerable field
//! type reports its error at the field, not at the annotation site.

use vstd::prelude::*;

use crate::expr::{Expr, FieldInit};
use crate::numfmt::dec_str;
use crate::path::Path;
use crate::span::Span;

verus! {

/// What one recursive-generation binding reads.
#[derive(Debug)]
pub enum GenSource {
    /// A named field of the implicit self value: `& self . name`.
    SelfField { name: String },
    /// A positional field of the implicit self value: `& self . 0`.
    SelfIndex { index: usize },
    /// A name bound by the arm's pattern, generated through a qualified call.
    BindingCall { name: String },
    /// A name bound by the skeleton's pattern, generated through a method
    /// call, as a hand-written skeleton's body would.
    BindingMethod { name: String },
}

/// One recursive-generation binding: `let bind = generate(source);`, spliced
/// with `span` attached.
#[derive(Debug)]
pub struct GenLet {
    pub bind: String,
    pub source: GenSource,
    pub span: Span,
}

/// One synthesized generator body: the bindings, then the quoted template.
#[derive(Debug)]
pub struct GenFn {
    pub lets: Vec<GenLet>,
    pub template: Expr,
}

/// The pattern of one synthesized match arm.
#[derive(Debug)]
pub enum BindsPat {
    Named { names: Vec<String> },
    Positional { names: Vec<String> },
    Unit,
}

/// One synthesized match arm: the variant it destructures, the names it
/// binds, and its rewritten body.
#[derive(Debug)]
pub struct GenArm {
    pub variant: String,
    pub binds: BindsPat,
    pub body: GenFn,
}

/// A whole synthesized generator: one flat body, or one arm per variant.
#[derive(Debug)]
pub enum GenBody {
    Flat { f: GenFn },
    Match { arms: Vec<GenArm> },
}

/// `l` generates from the named self field `name`, bound to that same name,
/// with the field's span attached.
pub open spec fn let_is_self_field(l: GenLet, name: Seq<char>, span: Span) -> bool {
    &&& l.bind@ == name
    &&& l.source matches GenSource::SelfField { name: n } && n@ == name
    &&& l.span == span
}

/// `l` generates from positional self field `index`, bound to a synthetic
/// name, with the field's span attached.
pub open spec fn let_is_self_index(l: GenLet, bind: Seq<char>, index: int, span: Span) -> bool {
    &&& l.bind@ == bind
    &&& l.source matches GenSource::SelfIndex { index: n } && n == index
    &&& l.span == span
}

/// `l` generates from an already-bound name through a qualified call, rebound
/// to that same name, with the originating element's span attached.
pub open spec fn let_is_binding_call(l: GenLet, name: Seq<char>, span: Span) -> bool {
    &&& l.bind@ == name
    &&& l.source matches GenSource::BindingCall { name: n } && n@ == name
    &&& l.span == span
}

/// `l` generates from an already-bound name through a method call, rebound to
/// that same name, with the originating element's span attached.
pub open spec fn let_is_binding_method(l: GenLet, name: Seq<char>, span: Span) -> bool {
    &&& l.bind@ == name
    &&& l.source matches GenSource::BindingMethod { name: n } && n@ == name
    &&& l.span == span
}

/// The synthetic name for positional slot `i`: `pref` followed by `i`.
pub open spec fn synth_name(pref: Seq<char>, i: int) -> Seq<char> {
    pref + dec_str(i as nat)
}

/// The named-field initializers splice one marker per name, in order.
pub open spec fn splices_named(inits: Seq<FieldInit>, names: Seq<Seq<char>>) -> bool {
    &&& inits.len() == names.len()
    &&& forall|i: int|
        0 <= i < names.len() ==> {
            &&& (#[trigger] inits[i]).name@ == names[i]
            &&& inits[i].e matches Expr::Splice { name } && name@ == names[i]
        }
}

/// The positional arguments splice one marker per name, in order.
pub open spec fn splices_positional(args: Seq<Expr>, names: Seq<Seq<char>>) -> bool {
    &&& args.len() == names.len()
    &&& forall|i: int|
        0 <= i < names.len() ==> {
            &&& (#[trigger] args[i]) matches Expr::Splice { name } && name@ == names[i]
        }
}

/// The constructor path is the destination prefix, then the type name, then
/// (for a variant arm) the variant name; a written empty prefix leaves a
/// rooted path.
pub open spec fn ctor_path_is(
    r: Path,
    pglobal: bool,
    psegs: Seq<Seq<char>>,
    name: Seq<char>,
    variant: Option<Seq<char>>,
) -> bool {
    &&& r.global == (pglobal || psegs.len() == 0)
    &&& r.segs@.len() == psegs.len() + 1 + if variant is Some {
        1int
    } else {
        0int
    }
    &&& forall|i: int| 0 <= i < psegs.len() ==> (#[trigger] r.segs@[i])@ == psegs[i]
    &&& r.segs@[psegs.len() as int]@ == name
    &&& (variant matches Some(v) ==> r.segs@[psegs.len() as int + 1]@ == v)
}

} // verus!
