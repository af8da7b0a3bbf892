//! The template rewriting engine.
//!
//! Given a hand-authored generator skeleton — an implementation block whose
//! one function holds a single destructuring binding of all fields, or a
//! single exhaustive match over the implicit self value — it rewrites every
//! binding site into a working recursive-generation body, preserving what the
//! author wrote as the matched pattern and discarding only the placeholder
//! body. Extraneous items are flagged but left in place; a wrong target, a
//! statement of neither accepted shape, a rest element, or any unsupported
//! pattern kind aborts rewriting.

use vstd::prelude::*;

use crate::expr::Expr;
use crate::genfn::{let_is_binding_method, splices_named, splices_positional, synth_name, GenFn, GenLet, GenSource};
use crate::path::{
    clone_string, is_base_of, is_resolved_path, resolve_self_path, self_head_global,
    self_head_segs, self_type_base, str_views, Path, PathSeg, SelfTy, TypePath,
};
use crate::span::{diags_proj, Diag, Span};

verus! {

/// An unsupported pattern kind: dispatch over these is a conscious, reviewed
/// catch-all, never a silent fallthrough.
#[derive(Clone, Copy, Debug, PartialEq, Eq, Structural)]
pub enum PatKind {
    Const,
    Ident,
    Lit,
    Macro,
    Or,
    Paren,
    Range,
    Reference,
    Rest,
    Slice,
    Tuple,
    Type,
    Verbatim,
    Wild,
}

/// One element of a positional pattern: a plain capture, or a rest element.
#[derive(Clone, Copy, Debug, PartialEq, Eq, Structural)]
pub struct ElemPat {
    pub is_rest: bool,
    pub span: Span,
}

/// One shorthand field binding of a named-field pattern.
#[derive(Debug)]
pub struct FieldPat {
    pub name: String,
    pub span: Span,
}

/// The parsed shape of one match arm or destructuring binding.
#[derive(Debug)]
pub enum PatNode {
    /// A bare path: a unit variant or a value reference by name.
    Path { path: TypePath },
    /// A positional shape, each slot holding some element pattern.
    TupleStruct { path: TypePath, elems: Vec<ElemPat>, qself: bool, has_attrs: bool, span: Span },
    /// A named-field shape with shorthand bindings.
    Struct {
        path: TypePath,
        fields: Vec<FieldPat>,
        rest: bool,
        qself: bool,
        has_attrs: bool,
        span: Span,
    },
    /// Any other pattern shape, always rejected.
    Other { kind: PatKind, span: Span },
}

/// One arm of the skeleton's match statement.
#[derive(Debug)]
pub struct MatchArm {
    pub pat: PatNode,
}

/// The one statement of the skeleton function.
#[derive(Debug)]
pub enum StmtKind {
    /// `match self { … }`.
    MatchSelf { arms: Vec<MatchArm> },
    /// `let <pattern> = self;`.
    LocalBind { pat: PatNode },
    /// Anything else.
    OtherStmt { span: Span },
}

/// The skeleton function: its signature text, its block, and the block's
/// first statement as a pattern shape.
#[derive(Debug)]
pub struct FnSkeleton {
    pub sig: String,
    pub block_text: String,
    pub block_span: Span,
    pub first_stmt: Option<StmtKind>,
}

/// One item of the implementation block.
#[derive(Debug)]
pub enum ImplItemK {
    Fn { f: FnSkeleton, span: Span },
    OtherItem { text: String, span: Span },
}

/// The implementation block the annotation was applied to.
#[derive(Debug)]
pub struct ImplSkeleton {
    /// The raw text of everything before the block's brace,
    /// `impl … Transmogrify for …`.
    pub header: String,
    pub self_ty: SelfTy,
    pub brace_span: Span,
    pub items: Vec<ImplItemK>,
}

/// The item the annotation was applied to.
#[derive(Debug)]
pub enum Item {
    Impl { imp: ImplSkeleton },
    OtherItem { span: Span },
}

/// The pattern of one rewritten arm: kept as the author wrote it, except that
/// positional elements are rebound to synthetic names.
#[derive(Debug)]
pub enum PatOut {
    Path { path: TypePath },
    TupleSynth { path: TypePath, names: Vec<String> },
    StructKept { path: TypePath, fields: Vec<FieldPat> },
}

/// One rewritten match arm.
#[derive(Debug)]
pub struct RewrittenArm {
    pub pat: PatOut,
    pub body: GenFn,
}

/// The rewritten generator function.
#[derive(Debug)]
pub enum Rewritten {
    /// The destructuring-binding form: the kept binding, then the body.
    Flat { pat: PatNode, body: GenFn },
    /// The pattern-match form: one rewritten arm per written arm.
    Arms { arms: Vec<RewrittenArm> },
}

/// The engine's output: the soft diagnostics and, when rewriting succeeded,
/// the rewritten function. With `rewritten` absent the skeleton is emitted as
/// written; `stubbed` marks the case where no function was found and an empty
/// placeholder implementation is appended so the block still compiles.
#[derive(Debug)]
pub struct RewriteOutput {
    pub errors: Vec<Diag>,
    pub rewritten: Option<Rewritten>,
    pub stubbed: bool,
}

pub open spec fn msg_wrong_target() -> Seq<char> {
    "#[transmogrify] must be applied to an `impl transmogrify for ... {}` block."@
}

pub open spec fn msg_single_item() -> Seq<char> {
    "expected a single item of the form\nfn transmogrify(&self) -> proc_macro2::TokenStream {}"@
}

pub open spec fn msg_single_stmt() -> Seq<char> {
    "#[transmogrify] requires a single statement in fn transmogrify that is a match self { .. } with all cases populated; rust-analyzer can help auto-generated this"@
}

pub open spec fn msg_local_expected() -> Seq<char> {
    "transmogrify! expected `Self { /* all members */ }"@
}

pub open spec fn msg_pat_attrs() -> Seq<char> {
    "attributes are not supported on a transmogrify pattern"@
}

pub open spec fn msg_pat_qself() -> Seq<char> {
    "qualified self types are not supported in a transmogrify pattern"@
}

pub open spec fn msg_pat_rest() -> Seq<char> {
    "rest patterns are not supported; each element must be a plain binding"@
}

pub open spec fn msg_pat_unsupported() -> Seq<char> {
    "unsupported pattern in a transmogrify match arm"@
}

pub open spec fn args_view(o: Option<String>) -> Option<Seq<char>> {
    match o {
        Some(s) => Some(s@),
        None => None,
    }
}

/// Two written paths read the same, segment for segment.
pub open spec fn type_path_eqv(a: TypePath, b: TypePath) -> bool {
    &&& a.global == b.global
    &&& a.span == b.span
    &&& a.segs@.len() == b.segs@.len()
    &&& forall|i: int|
        0 <= i < a.segs@.len() ==> (#[trigger] a.segs@[i]).ident@ == b.segs@[i].ident@ && args_view(
            a.segs@[i].args,
        ) == args_view(b.segs@[i].args)
}

/// Two field-binding lists read the same.
pub open spec fn field_pats_eqv(a: Seq<FieldPat>, b: Seq<FieldPat>) -> bool {
    &&& a.len() == b.len()
    &&& forall|i: int|
        0 <= i < a.len() ==> (#[trigger] a[i]).name@ == b[i].name@ && a[i].span == b[i].span
}

/// Whether rewriting this arm aborts: pattern attributes, a qualified self
/// type, a rest element, or an unsupported pattern kind.
pub open spec fn arm_fatal(p: PatNode) -> bool {
    match p {
        PatNode::Path { .. } => false,
        PatNode::TupleStruct { elems, qself, has_attrs, .. } => has_attrs || qself || exists|i: int|
            0 <= i < elems@.len() && (#[trigger] elems@[i]).is_rest,
        PatNode::Struct { rest, qself, has_attrs, .. } => has_attrs || qself || rest,
        PatNode::Other { .. } => true,
    }
}

/// The span of the first rest element.
pub open spec fn first_rest_span(elems: Seq<ElemPat>, i: int) -> Span
    decreases elems.len() - i,
{
    if i < 0 || i >= elems.len() {
        Span { lo: 0, hi: 0 }
    } else if elems[i].is_rest {
        elems[i].span
    } else {
        first_rest_span(elems, i + 1)
    }
}

/// The fatal diagnostic an aborting arm reports, first offending condition
/// first.
pub open spec fn arm_fatal_diag(p: PatNode) -> (Span, Seq<char>) {
    match p {
        PatNode::Path { path } => (path.span, msg_pat_unsupported()),
        PatNode::TupleStruct { elems, qself, has_attrs, span, .. } => {
            if has_attrs {
                (span, msg_pat_attrs())
            } else if qself {
                (span, msg_pat_qself())
            } else {
                (first_rest_span(elems@, 0), msg_pat_rest())
            }
        },
        PatNode::Struct { rest, qself, has_attrs, span, .. } => {
            if has_attrs {
                (span, msg_pat_attrs())
            } else if qself {
                (span, msg_pat_qself())
            } else {
                (span, msg_pat_rest())
            }
        },
        PatNode::Other { span, .. } => (span, msg_pat_unsupported()),
    }
}

/// From arm `i` on, some arm aborts rewriting.
pub open spec fn arms_fatal_from(arms: Seq<MatchArm>, i: int) -> bool
    decreases arms.len() - i,
{
    if i < 0 || i >= arms.len() {
        false
    } else {
        arm_fatal(arms[i].pat) || arms_fatal_from(arms, i + 1)
    }
}

/// The first aborting arm's diagnostic.
pub open spec fn arms_fatal_diag_from(arms: Seq<MatchArm>, i: int) -> (Span, Seq<char>)
    decreases arms.len() - i,
{
    if i < 0 || i >= arms.len() {
        (Span { lo: 0, hi: 0 }, msg_pat_unsupported())
    } else if arm_fatal(arms[i].pat) {
        arm_fatal_diag(arms[i].pat)
    } else {
        arms_fatal_diag_from(arms, i + 1)
    }
}

/// One rewritten arm is correct for its written arm: the matched pattern is
/// preserved (positional slots rebound to synthetic names), every bound
/// sub-value is generated at its own element's span, and the construction
/// template uses the arm's path with a leading self-referential segment
/// resolved to the implementing type's own generics-stripped path.
pub open spec fn rewritten_arm_ok(p: PatNode, self_ty: SelfTy, r: RewrittenArm) -> bool {
    match p {
        PatNode::Path { path } => {
            &&& r.pat matches PatOut::Path { path: kept } && type_path_eqv(kept, path)
            &&& r.body.lets@.len() == 0
            &&& r.body.template matches Expr::PathExpr { path: rp }
            &&& is_resolved_path(path, self_ty, rp)
        },
        PatNode::TupleStruct { path, elems, .. } => {
            &&& r.pat matches PatOut::TupleSynth { path: kept, names } && type_path_eqv(kept, path)
                && names@.len() == elems@.len() && (forall|i: int|
                0 <= i < elems@.len() ==> (#[trigger] names@[i])@ == synth_name("value_"@, i))
            &&& r.body.lets@.len() == elems@.len()
            &&& forall|i: int|
                0 <= i < elems@.len() ==> let_is_binding_method(
                    #[trigger] r.body.lets@[i],
                    synth_name("value_"@, i),
                    elems@[i].span,
                )
            &&& r.body.template matches Expr::CtorCall { path: rp, args }
            &&& is_resolved_path(path, self_ty, rp)
            &&& splices_positional(args@, Seq::new(elems@.len(), |i: int| synth_name("value_"@, i)))
        },
        PatNode::Struct { path, fields, .. } => {
            &&& r.pat matches PatOut::StructKept { path: kept, fields: kf } && type_path_eqv(
                kept,
                path,
            ) && field_pats_eqv(kf@, fields@)
            &&& r.body.lets@.len() == fields@.len()
            &&& forall|i: int|
                0 <= i < fields@.len() ==> let_is_binding_method(
                    #[trigger] r.body.lets@[i],
                    fields@[i].name@,
                    fields@[i].span,
                )
            &&& r.body.template matches Expr::CtorNamed { path: rp, fields: inits }
            &&& is_resolved_path(path, self_ty, rp)
            &&& splices_named(inits@, fields@.map_values(|f: FieldPat| f.name@))
        },
        PatNode::Other { .. } => false,
    }
}

/// The destination path of the destructuring-binding form: the implementing
/// type's own generics-stripped path.
pub open spec fn is_self_path(t: SelfTy, rp: Path) -> bool {
    &&& rp.global == self_head_global(t)
    &&& str_views(rp.segs@) == self_head_segs(t)
}

/// The rewritten destructuring-binding form: the written binding is kept,
/// each bound field is generated at its own span, and the construction
/// template uses the implementing type's own path with named-field syntax.
pub open spec fn rewritten_local_ok(p: PatNode, self_ty: SelfTy, pat: PatNode, body: GenFn) -> bool {
    match p {
        PatNode::Struct { path, fields, .. } => {
            &&& pat matches PatNode::Struct {
                path: kept,
                fields: kf,
                rest: krest,
                qself: kq,
                has_attrs: ka,
                ..
            }
            &&& type_path_eqv(kept, path)
            &&& field_pats_eqv(kf@, fields@)
            &&& krest == false && kq == false && ka == false
            &&& body.lets@.len() == fields@.len()
            &&& forall|i: int|
                0 <= i < fields@.len() ==> let_is_binding_method(
                    #[trigger] body.lets@[i],
                    fields@[i].name@,
                    fields@[i].span,
                )
            &&& body.template matches Expr::CtorNamed { path: rp, fields: inits }
            &&& is_self_path(self_ty, rp)
            &&& splices_named(inits@, fields@.map_values(|f: FieldPat| f.name@))
        },
        _ => false,
    }
}

/// Whether the destructuring-binding form aborts: a qualified self type or a
/// rest element inside the binding.
pub open spec fn local_fatal(p: PatNode) -> bool {
    p matches PatNode::Struct { qself, rest, .. } && (qself || rest)
}

pub open spec fn local_fatal_diag(p: PatNode) -> (Span, Seq<char>) {
    match p {
        PatNode::Struct { qself, span, .. } => {
            if qself {
                (span, msg_pat_qself())
            } else {
                (span, msg_pat_rest())
            }
        },
        _ => (Span { lo: 0, hi: 0 }, msg_pat_rest()),
    }
}

/// The joined span of items `i..`.
pub open spec fn items_span_from(items: Seq<ImplItemK>, i: int) -> Span
    decreases items.len() - i,
{
    if i < 0 || i >= items.len() {
        Span { lo: 0, hi: 0 }
    } else if i + 1 == items.len() {
        item_span(items[i])
    } else {
        item_span(items[i]).spec_join(items_span_from(items, i + 1))
    }
}

pub open spec fn item_span(it: ImplItemK) -> Span {
    match it {
        ImplItemK::Fn { span, .. } => span,
        ImplItemK::OtherItem { span, .. } => span,
    }
}

/// The extraneous-items diagnostics: one combined diagnostic over the joined
/// span of everything past the first item, so a single invocation never
/// produces a cascade of unrelated errors.
pub open spec fn extra_item_diags(items: Seq<ImplItemK>) -> Seq<(Span, Seq<char>)> {
    if items.len() > 1 {
        seq![(items_span_from(items, 1), msg_single_item())]
    } else {
        Seq::empty()
    }
}

/// The whole contract of the template rewriting engine on an implementation
/// block, case by case on the block's first item and its first statement.
pub open spec fn rewrite_ok(imp: ImplSkeleton, r: Result<RewriteOutput, Diag>) -> bool {
    if imp.items@.len() == 0 || !(imp.items@[0] is Fn) {
        // No skeleton function: flag the block, stub a placeholder in, and
        // emit everything as written. Diagnostics about extraneous items are
        // superseded by this one.
        &&& r matches Ok(out)
        &&& out.rewritten is None
        &&& out.stubbed
        &&& diags_proj(out.errors@) == seq![(imp.brace_span, msg_single_item())]
    } else {
        match imp.items@[0]->Fn_f.first_stmt {
            Some(StmtKind::MatchSelf { arms }) => {
                if arms_fatal_from(arms@, 0) {
                    &&& r matches Err(d)
                    &&& (d.span, d.msg@) == arms_fatal_diag_from(arms@, 0)
                } else {
                    &&& r matches Ok(out)
                    &&& !out.stubbed
                    &&& diags_proj(out.errors@) == extra_item_diags(imp.items@)
                    &&& out.rewritten matches Some(Rewritten::Arms { arms: ra })
                    &&& ra@.len() == arms@.len()
                    &&& forall|i: int|
                        0 <= i < arms@.len() ==> rewritten_arm_ok(
                            arms@[i].pat,
                            imp.self_ty,
                            #[trigger] ra@[i],
                        )
                }
            },
            Some(StmtKind::LocalBind { pat }) => {
                if local_fatal(pat) {
                    &&& r matches Err(d)
                    &&& (d.span, d.msg@) == local_fatal_diag(pat)
                } else if pat is Struct {
                    &&& r matches Ok(out)
                    &&& !out.stubbed
                    &&& diags_proj(out.errors@) == extra_item_diags(imp.items@)
                    &&& out.rewritten matches Some(Rewritten::Flat { pat: kept, body })
                    &&& rewritten_local_ok(pat, imp.self_ty, kept, body)
                } else {
                    // Not a destructuring of all members: flag it and emit the
                    // skeleton as written.
                    &&& r matches Ok(out)
                    &&& !out.stubbed
                    &&& out.rewritten is None
                    &&& diags_proj(out.errors@) == extra_item_diags(imp.items@) + seq![
                        (pat_span(pat), msg_local_expected()),
                    ]
                }
            },
            _ => {
                &&& r matches Err(d)
                &&& d.span == imp.items@[0]->Fn_f.block_span
                &&& d.msg@ == msg_single_stmt()
            },
        }
    }
}

pub open spec fn pat_span(p: PatNode) -> Span {
    match p {
        PatNode::Path { path } => path.span,
        PatNode::TupleStruct { span, .. } => span,
        PatNode::Struct { span, .. } => span,
        PatNode::Other { span, .. } => span,
    }
}

/// Copies a written path.
fn clone_type_path(p: &TypePath) -> (r: TypePath)
    ensures
        type_path_eqv(r, *p),
{
    let mut segs: Vec<PathSeg> = Vec::new();
    let mut i: usize = 0;
    while i < p.segs.len()
        invariant
            i <= p.segs@.len(),
            segs@.len() == i,
            forall|j: int|
                0 <= j < i ==> (#[trigger] segs@[j]).ident@ == p.segs@[j].ident@ && args_view(
                    segs@[j].args,
                ) == args_view(p.segs@[j].args),
        decreases p.segs@.len() - i,
    {
        let s = &p.segs[i];
        let args = match &s.args {
            Some(a) => Some(clone_string(a)),
            None => None,
        };
        segs.push(PathSeg { ident: clone_string(&s.ident), args });
        i = i + 1;
    }
    TypePath { global: p.global, segs, span: p.span }
}

/// Copies a field-binding list.
fn clone_field_pats(fs: &Vec<FieldPat>) -> (r: Vec<FieldPat>)
    ensures
        field_pats_eqv(r@, fs@),
{
    let mut r: Vec<FieldPat> = Vec::new();
    let mut i: usize = 0;
    while i < fs.len()
        invariant
            i <= fs@.len(),
            r@.len() == i,
            forall|j: int|
                0 <= j < i ==> (#[trigger] r@[j]).name@ == fs@[j].name@ && r@[j].span == fs@[j].span,
        decreases fs@.len() - i,
    {
        r.push(FieldPat { name: clone_string(&fs[i].name), span: fs[i].span });
        i = i + 1;
    }
    r
}

/// One generation binding per field bound by a named-field pattern.
fn field_pat_lets(fields: &Vec<FieldPat>) -> (lets: Vec<GenLet>)
    ensures
        lets@.len() == fields@.len(),
        forall|i: int|
            0 <= i < fields@.len() ==> let_is_binding_method(
                #[trigger] lets@[i],
                fields@[i].name@,
                fields@[i].span,
            ),
{
    let mut lets: Vec<GenLet> = Vec::new();
    let mut i: usize = 0;
    while i < fields.len()
        invariant
            i <= fields@.len(),
            lets@.len() == i,
            forall|j: int|
                0 <= j < i ==> let_is_binding_method(#[trigger] lets@[j], fields@[j].name@, fields@[j].span),
        decreases fields@.len() - i,
    {
        let f = &fields[i];
        lets.push(
            GenLet {
                bind: clone_string(&f.name),
                source: GenSource::BindingMethod { name: clone_string(&f.name) },
                span: f.span,
            },
        );
        i = i + 1;
    }
    lets
}

/// One interpolation marker per field bound by a named-field pattern.
fn field_pat_splices(fields: &Vec<FieldPat>) -> (inits: Vec<crate::expr::FieldInit>)
    ensures
        splices_named(inits@, fields@.map_values(|f: FieldPat| f.name@)),
{
    let mut inits: Vec<crate::expr::FieldInit> = Vec::new();
    let mut i: usize = 0;
    while i < fields.len()
        invariant
            i <= fields@.len(),
            inits@.len() == i,
            forall|j: int|
                0 <= j < i ==> {
                    &&& (#[trigger] inits@[j]).name@ == fields@[j].name@
                    &&& inits@[j].e matches Expr::Splice { name } && name@ == fields@[j].name@
                },
        decreases fields@.len() - i,
    {
        let f = &fields[i];
        inits.push(
            crate::expr::FieldInit {
                name: clone_string(&f.name),
                e: Expr::Splice { name: clone_string(&f.name) },
            },
        );
        i = i + 1;
    }
    inits
}

/// One generation binding per positional element, rebound to a synthetic
/// name, each spliced at the original element pattern's span.
fn elem_lets(elems: &Vec<ElemPat>) -> (lets: Vec<GenLet>)
    ensures
        lets@.len() == elems@.len(),
        forall|i: int|
            0 <= i < elems@.len() ==> let_is_binding_method(
                #[trigger] lets@[i],
                synth_name("value_"@, i),
                elems@[i].span,
            ),
{
    let mut lets: Vec<GenLet> = Vec::new();
    let mut i: usize = 0;
    while i < elems.len()
        invariant
            i <= elems@.len(),
            lets@.len() == i,
            forall|j: int|
                0 <= j < i ==> let_is_binding_method(#[trigger] lets@[j], synth_name("value_"@, j), elems@[j].span),
        decreases elems@.len() - i,
    {
        let n = crate::numfmt::synth_ident("value_", i);
        lets.push(
            GenLet {
                bind: clone_string(&n),
                source: GenSource::BindingMethod { name: n },
                span: elems[i].span,
            },
        );
        i = i + 1;
    }
    lets
}

/// One interpolation marker per positional element, under synthetic names.
fn elem_splices(n: usize) -> (args: Vec<Expr>)
    ensures
        splices_positional(args@, Seq::new(n as nat, |i: int| synth_name("value_"@, i))),
{
    let mut args: Vec<Expr> = Vec::new();
    let mut i: usize = 0;
    while i < n
        invariant
            i <= n,
            args@.len() == i,
            forall|j: int|
                0 <= j < i ==> {
                    &&& (#[trigger] args@[j]) matches Expr::Splice { name } && name@ == synth_name(
                        "value_"@,
                        j,
                    )
                },
        decreases n - i,
    {
        args.push(Expr::Splice { name: crate::numfmt::synth_ident("value_", i) });
        i = i + 1;
    }
    args
}

/// The synthetic names a rewritten positional pattern binds.
fn elem_names(n: usize) -> (names: Vec<String>)
    ensures
        names@.len() == n,
        forall|i: int| 0 <= i < n ==> (#[trigger] names@[i])@ == synth_name("value_"@, i),
{
    let mut names: Vec<String> = Vec::new();
    let mut i: usize = 0;
    while i < n
        invariant
            i <= n,
            names@.len() == i,
            forall|j: int| 0 <= j < i ==> (#[trigger] names@[j])@ == synth_name("value_"@, j),
        decreases n - i,
    {
        names.push(crate::numfmt::synth_ident("value_", i));
        i = i + 1;
    }
    names
}

/// The index of the first rest element, if any.
fn find_rest(elems: &Vec<ElemPat>) -> (r: Option<usize>)
    ensures
        r is Some <==> exists|i: int| 0 <= i < elems@.len() && (#[trigger] elems@[i]).is_rest,
        r matches Some(i) ==> i < elems@.len() && elems@[i as int].is_rest && first_rest_span(
            elems@,
            0,
        ) == elems@[i as int].span,
{
    let mut i: usize = 0;
    while i < elems.len()
        invariant
            i <= elems@.len(),
            forall|j: int| 0 <= j < i ==> !(#[trigger] elems@[j]).is_rest,
            first_rest_span(elems@, 0) == first_rest_span(elems@, i as int),
        decreases elems@.len() - i,
    {
        if elems[i].is_rest {
            return Some(i);
        }
        i = i + 1;
    }
    None
}

/// Rewrites one match arm against the stripped self type `base`.
fn rewrite_arm(p: &PatNode, base: &SelfTy) -> (r: Result<RewrittenArm, Diag>)
    ensures
        r is Ok <==> !arm_fatal(*p),
        r matches Err(d) ==> (d.span, d.msg@) == arm_fatal_diag(*p),
        forall|t: SelfTy|
            #[trigger] is_base_of(*base, t) ==> (r matches Ok(ra) ==> rewritten_arm_ok(*p, t, ra)),
{
    match p {
        PatNode::Path { path } => {
            let rp = resolve_self_path(path, base);
            let ra = RewrittenArm {
                pat: PatOut::Path { path: clone_type_path(path) },
                body: GenFn { lets: Vec::new(), template: Expr::PathExpr { path: rp } },
            };
            proof {
                assert forall|t: SelfTy| is_base_of(*base, t) implies rewritten_arm_ok(
                    *p,
                    t,
                    ra,
                ) by {
                    crate::path::lemma_base_heads(*base, t);
                }
            }
            Ok(ra)
        },
        PatNode::TupleStruct { path, elems, qself, has_attrs, span } => {
            if *has_attrs {
                return Err(Diag::new(*span, "attributes are not supported on a transmogrify pattern"));
            }
            if *qself {
                return Err(
                    Diag::new(*span, "qualified self types are not supported in a transmogrify pattern"),
                );
            }
            match find_rest(elems) {
                Some(i) => {
                    return Err(
                        Diag::new(
                            elems[i].span,
                            "rest patterns are not supported; each element must be a plain binding",
                        ),
                    );
                },
                None => {},
            }
            let rp = resolve_self_path(path, base);
            let ra = RewrittenArm {
                pat: PatOut::TupleSynth {
                    path: clone_type_path(path),
                    names: elem_names(elems.len()),
                },
                body: GenFn {
                    lets: elem_lets(elems),
                    template: Expr::CtorCall { path: rp, args: elem_splices(elems.len()) },
                },
            };
            proof {
                assert forall|t: SelfTy| is_base_of(*base, t) implies rewritten_arm_ok(
                    *p,
                    t,
                    ra,
                ) by {
                    crate::path::lemma_base_heads(*base, t);
                }
            }
            Ok(ra)
        },
        PatNode::Struct { path, fields, rest, qself, has_attrs, span } => {
            if *has_attrs {
                return Err(Diag::new(*span, "attributes are not supported on a transmogrify pattern"));
            }
            if *qself {
                return Err(
                    Diag::new(*span, "qualified self types are not supported in a transmogrify pattern"),
                );
            }
            if *rest {
                return Err(
                    Diag::new(
                        *span,
                        "rest patterns are not supported; each element must be a plain binding",
                    ),
                );
            }
            let rp = resolve_self_path(path, base);
            let ra = RewrittenArm {
                pat: PatOut::StructKept {
                    path: clone_type_path(path),
                    fields: clone_field_pats(fields),
                },
                body: GenFn {
                    lets: field_pat_lets(fields),
                    template: Expr::CtorNamed { path: rp, fields: field_pat_splices(fields) },
                },
            };
            proof {
                assert forall|t: SelfTy| is_base_of(*base, t) implies rewritten_arm_ok(
                    *p,
                    t,
                    ra,
                ) by {
                    crate::path::lemma_base_heads(*base, t);
                }
            }
            Ok(ra)
        },
        PatNode::Other { kind: _, span } => {
            Err(Diag::new(*span, "unsupported pattern in a transmogrify match arm"))
        },
    }
}

/// A fatal arm is reported the same from the front as from the first
/// non-fatal prefix's end.
proof fn lemma_arms_fatal_seg(arms: Seq<MatchArm>, k: int, i: int)
    requires
        0 <= k <= i <= arms.len(),
        forall|j: int| k <= j < i ==> !arm_fatal(arms[j].pat),
    ensures
        arms_fatal_from(arms, k) == arms_fatal_from(arms, i),
        arms_fatal_from(arms, i) ==> arms_fatal_diag_from(arms, k) == arms_fatal_diag_from(
            arms,
            i,
        ),
    decreases i - k,
{
    if k < i {
        lemma_arms_fatal_seg(arms, k + 1, i);
    }
}

/// Rewrites every arm independently, aborting on the first arm whose pattern
/// kind is unsupported.
fn translate_match(arms: &Vec<MatchArm>, base: &SelfTy) -> (r: Result<Vec<RewrittenArm>, Diag>)
    ensures
        r is Ok <==> !arms_fatal_from(arms@, 0),
        r matches Err(d) ==> (d.span, d.msg@) == arms_fatal_diag_from(arms@, 0),
        forall|t: SelfTy|
            #[trigger] is_base_of(*base, t) ==> (r matches Ok(ra) ==> ra@.len() == arms@.len()
                && forall|i: int|
                0 <= i < arms@.len() ==> #[trigger] rewritten_arm_ok(arms@[i].pat, t, ra@[i])),
{
    let mut out: Vec<RewrittenArm> = Vec::new();
    let mut i: usize = 0;
    while i < arms.len()
        invariant
            i <= arms@.len(),
            out@.len() == i,
            forall|j: int| 0 <= j < i ==> !arm_fatal(arms@[j].pat),
            forall|t: SelfTy|
                is_base_of(*base, t) ==> forall|j: int|
                    0 <= j < i ==> #[trigger] rewritten_arm_ok(arms@[j].pat, t, out@[j]),
        decreases arms@.len() - i,
    {
        match rewrite_arm(&arms[i].pat, base) {
            Ok(ra) => {
                out.push(ra);
            },
            Err(d) => {
                proof {
                    lemma_arms_fatal_seg(arms@, 0, i as int);
                }
                return Err(d);
            },
        }
        i = i + 1;
    }
    proof {
        lemma_arms_fatal_seg(arms@, 0, arms@.len() as int);
    }
    Ok(out)
}

/// Rewrites the destructuring-binding form.
fn translate_local(p: &PatNode, base: &SelfTy) -> (r: Result<(PatNode, GenFn), Diag>)
    requires
        (*p) matches PatNode::Struct { qself, rest, .. } && !qself && !rest,
    ensures
        forall|t: SelfTy|
            #[trigger] is_base_of(*base, t) ==> (r matches Ok(pb) ==> rewritten_local_ok(
                *p,
                t,
                pb.0,
                pb.1,
            )),
        r is Ok,
{
    match p {
        PatNode::Struct { path, fields, span, .. } => {
            let rp = crate::path::self_path(base);
            let kept = PatNode::Struct {
                path: clone_type_path(path),
                fields: clone_field_pats(fields),
                rest: false,
                qself: false,
                has_attrs: false,
                span: *span,
            };
            let body = GenFn {
                lets: field_pat_lets(fields),
                template: Expr::CtorNamed { path: rp, fields: field_pat_splices(fields) },
            };
            proof {
                assert forall|t: SelfTy| is_base_of(*base, t) implies rewritten_local_ok(
                    *p,
                    t,
                    kept,
                    body,
                ) by {
                    crate::path::lemma_base_heads(*base, t);
                }
            }
            Ok((kept, body))
        },
        _ => {
            // Excluded by the caller's check of the binding's shape.
            proof {
                assert(false);
            }
            Err(Diag::new(Span { lo: 0, hi: 0 }, "unsupported pattern in a transmogrify match arm"))
        },
    }
}

/// The joined source span of every item past the first.
fn extra_items_span(items: &Vec<ImplItemK>) -> (r: Span)
    requires
        items@.len() > 1,
    ensures
        r == items_span_from(items@, 1),
{
    let mut i: usize = items.len() - 1;
    let mut acc: Span = match &items[i] {
        ImplItemK::Fn { span, .. } => *span,
        ImplItemK::OtherItem { span, .. } => *span,
    };
    while i > 1
        invariant
            1 <= i < items@.len(),
            acc == items_span_from(items@, i as int),
        decreases i,
    {
        i = i - 1;
        let s = match &items[i] {
            ImplItemK::Fn { span, .. } => *span,
            ImplItemK::OtherItem { span, .. } => *span,
        };
        acc = s.join(acc);
    }
    acc
}

/// The template rewriting engine. Applied to anything but an implementation
/// block it aborts; applied to a block whose one function holds a single
/// destructuring binding or a single match over the implicit self value, it
/// rewrites that function and flags — without failing — extraneous items and
/// a binding of an unexpected shape; a statement of neither accepted shape,
/// and any unsupported or rest pattern inside a match, abort rewriting.
pub fn transmogrify(item: &Item) -> (r: Result<RewriteOutput, Diag>)
    ensures
        item matches Item::OtherItem { span } ==> r matches Err(d) && d.span == *span && d.msg@
            == msg_wrong_target(),
        item matches Item::Impl { imp } ==> rewrite_ok(*imp, r),
{
    match item {
        Item::OtherItem { span } => {
            Err(
                Diag::new(
                    *span,
                    "#[transmogrify] must be applied to an `impl transmogrify for ... {}` block.",
                ),
            )
        },
        Item::Impl { imp } => {
            let base = self_type_base(&imp.self_ty);
            let mut errors: Vec<Diag> = Vec::new();
            if imp.items.len() > 1 {
                let sp = extra_items_span(&imp.items);
                let ghost before = errors@;
                errors.push(
                    Diag::new(
                        sp,
                        "expected a single item of the form\nfn transmogrify(&self) -> proc_macro2::TokenStream {}",
                    ),
                );
                proof {
                    assert(diags_proj(errors@) =~= extra_item_diags(imp.items@));
                }
            }
            proof {
                if imp.items@.len() <= 1 {
                    assert(diags_proj(errors@) =~= extra_item_diags(imp.items@));
                }
            }
            if imp.items.len() == 0 {
                return Ok(stub_output(imp.brace_span));
            }
            let f = match &imp.items[0] {
                ImplItemK::Fn { f, .. } => f,
                ImplItemK::OtherItem { .. } => {
                    return Ok(stub_output(imp.brace_span));
                },
            };
            match &f.first_stmt {
                Some(StmtKind::MatchSelf { arms }) => {
                    match translate_match(arms, &base) {
                        Ok(ra) => Ok(
                            RewriteOutput {
                                errors,
                                rewritten: Some(Rewritten::Arms { arms: ra }),
                                stubbed: false,
                            },
                        ),
                        Err(d) => Err(d),
                    }
                },
                Some(StmtKind::LocalBind { pat }) => {
                    match pat {
                        PatNode::Struct { qself, rest, span, .. } => {
                            if *qself {
                                return Err(
                                    Diag::new(
                                        *span,
                                        "qualified self types are not supported in a transmogrify pattern",
                                    ),
                                );
                            }
                            if *rest {
                                return Err(
                                    Diag::new(
                                        *span,
                                        "rest patterns are not supported; each element must be a plain binding",
                                    ),
                                );
                            }
                            match translate_local(pat, &base) {
                                Ok((kept, body)) => Ok(
                                    RewriteOutput {
                                        errors,
                                        rewritten: Some(Rewritten::Flat { pat: kept, body }),
                                        stubbed: false,
                                    },
                                ),
                                Err(d) => Err(d),
                            }
                        },
                        _ => {
                            // The binding is not a destructuring of all
                            // members: flag it and emit the skeleton as
                            // written.
                            let ghost before = errors@;
                            let sp = pat_span_of(pat);
                            errors.push(
                                Diag::new(sp, "transmogrify! expected `Self { /* all members */ }"),
                            );
                            proof {
                                assert(diags_proj(errors@) =~= diags_proj(before) + seq![
                                    (pat_span(*pat), msg_local_expected()),
                                ]);
                            }
                            Ok(RewriteOutput { errors, rewritten: None, stubbed: false })
                        },
                    }
                },
                _ => {
                    Err(
                        Diag::new(
                            f.block_span,
                            "#[transmogrify] requires a single statement in fn transmogrify that is a match self { .. } with all cases populated; rust-analyzer can help auto-generated this",
                        ),
                    )
                },
            }
        },
    }
}

/// The span of a written pattern.
fn pat_span_of(p: &PatNode) -> (r: Span)
    ensures
        r == pat_span(*p),
{
    match p {
        PatNode::Path { path } => path.span,
        PatNode::TupleStruct { span, .. } => *span,
        PatNode::Struct { span, .. } => *span,
        PatNode::Other { span, .. } => *span,
    }
}

/// The output for a block with no skeleton function: one diagnostic at the
/// block's braces, plus an empty placeholder implementation.
fn stub_output(brace_span: Span) -> (out: RewriteOutput)
    ensures
        out.rewritten is None,
        out.stubbed,
        diags_proj(out.errors@) == seq![(brace_span, msg_single_item())],
{
    let mut errors: Vec<Diag> = Vec::new();
    errors.push(
        Diag::new(
            brace_span,
            "expected a single item of the form\nfn transmogrify(&self) -> proc_macro2::TokenStream {}",
        ),
    );
    proof {
        assert(diags_proj(errors@) =~= seq![(brace_span, msg_single_item())]);
    }
    RewriteOutput { errors, rewritten: None, stubbed: true }
}

} // verus!
