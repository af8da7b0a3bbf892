//! The declarative generator.
//!
//! Given a full type declaration — shape, visibilities, generic-parameter
//! text, and its annotations — it synthesizes a complete generator body with
//! no hand-written skeleton: one recursive-generation binding per field and a
//! literal-construction template under the configured destination prefix.
//! Structural violations are collected as diagnostics and emitted alongside
//! best-effort output; only a union-shaped declaration aborts generation.

use vstd::prelude::*;

use crate::expr::{Expr, FieldInit};
use crate::genfn::{
    ctor_path_is, let_is_binding_call, let_is_self_field, let_is_self_index, splices_named,
    splices_positional, synth_name, BindsPat, GenArm, GenBody, GenFn, GenLet, GenSource,
};
use crate::path::{clone_string, str_eq, str_views, Path, TypePath};
use crate::span::{diags_proj, Diag, Span};
use crate::tokens::{parse_prefix_attr, prefix_err, prefix_global, prefix_segs, prefix_wf, Tok};

verus! {

/// The generic-parameter text of a declaration, carried verbatim: the
/// implementation parameters, the type arguments, and the where clause.
#[derive(Debug)]
pub struct Generics {
    pub impl_generics: String,
    pub ty_generics: String,
    pub where_clause: String,
}

/// The shape of one annotation on the declaration.
#[derive(Debug)]
pub enum MetaShape {
    /// `#[name(tokens)]`, with the span of the argument list.
    List { tokens: Vec<Tok>, tokens_span: Span },
    /// `#[name]`.
    Bare,
    /// `#[name = value]`.
    NameValue,
}

/// One annotation on the declaration.
#[derive(Debug)]
pub struct Attr {
    pub span: Span,
    pub path: Vec<String>,
    pub shape: MetaShape,
}

/// One declared field.
#[derive(Debug)]
pub struct FieldDecl {
    /// The field's name; unused for a positional field.
    pub name: String,
    pub is_public: bool,
    pub span: Span,
}

/// The field arity of a declaration or variant.
#[derive(Debug)]
pub enum FieldsDecl {
    Named { fields: Vec<FieldDecl> },
    Unnamed { fields: Vec<FieldDecl> },
    Unit,
}

/// One declared variant.
#[derive(Debug)]
pub struct Variant {
    pub name: String,
    pub fields: FieldsDecl,
}

/// The declared shape.
#[derive(Debug)]
pub enum Data {
    Struct { fields: FieldsDecl },
    Enum { variants: Vec<Variant> },
    Union,
}

/// A full type declaration: what the declarative generator consumes.
#[derive(Debug)]
pub struct TypeDecl {
    pub span: Span,
    pub is_public: bool,
    pub name: String,
    pub generics: Generics,
    pub attrs: Vec<Attr>,
    pub data: Data,
}

/// The declarative generator's output: the collected diagnostics and the
/// synthesized generator, emitted together.
#[derive(Debug)]
pub struct DeriveOutput {
    pub errors: Vec<Diag>,
    pub name: String,
    pub generics: Generics,
    pub body: GenBody,
}

pub open spec fn msg_malformed() -> Seq<char> {
    "must be of the form #[transmogrify(prefix = <path>)]"@
}

pub open spec fn msg_missing() -> Seq<char> {
    "must specify a path prefix #[transmogrify(prefix = <path>)]"@
}

pub open spec fn msg_not_public() -> Seq<char> {
    "the type must be pub for consumers to use Transmogrify output"@
}

pub open spec fn msg_field_not_public() -> Seq<char> {
    "struct fields must be pub"@
}

pub open spec fn msg_union() -> Seq<char> {
    "Transmogrify my not be derived from unions"@
}

/// The annotation names this engine: a single-segment `transmogrify` path.
pub open spec fn attr_is_marker(a: Attr) -> bool {
    a.path@.len() == 1 && a.path@[0]@ == "transmogrify"@
}

/// A marker annotation whose argument list parses as `prefix = <path>`.
pub open spec fn attr_good(a: Attr) -> bool {
    &&& attr_is_marker(a)
    &&& a.shape matches MetaShape::List { tokens, .. } && prefix_wf(tokens@)
}

/// The diagnostics one annotation contributes: a parse error for a malformed
/// argument list, the fixed shape error for a bare or name-value marker, and
/// nothing for any other annotation.
pub open spec fn attr_diags(a: Attr) -> Seq<(Span, Seq<char>)> {
    if attr_is_marker(a) {
        match a.shape {
            MetaShape::List { tokens, tokens_span } => {
                if prefix_wf(tokens@) {
                    Seq::empty()
                } else {
                    seq![prefix_err(tokens@, tokens_span)]
                }
            },
            _ => seq![(a.span, msg_malformed())],
        }
    } else {
        Seq::empty()
    }
}

/// All configuration diagnostics, in declaration order.
pub open spec fn config_diags(attrs: Seq<Attr>) -> Seq<(Span, Seq<char>)>
    decreases attrs.len(),
{
    if attrs.len() == 0 {
        Seq::empty()
    } else {
        config_diags(attrs.drop_last()) + attr_diags(attrs.last())
    }
}

/// Whether any annotation is a marker, well-formed or not: a malformed marker
/// still counts as configuration found, so that a declaration is not also
/// told its configuration is missing.
pub open spec fn has_marker(attrs: Seq<Attr>) -> bool
    decreases attrs.len(),
{
    if attrs.len() == 0 {
        false
    } else {
        has_marker(attrs.drop_last()) || attr_is_marker(attrs.last())
    }
}

pub open spec fn attr_tokens(a: Attr) -> Seq<Tok> {
    (a.shape->List_tokens)@
}

/// Whether the chosen destination prefix — the last well-formed marker's
/// path, the empty prefix when there is none — is written rooted.
pub open spec fn chosen_global(attrs: Seq<Attr>) -> bool
    decreases attrs.len(),
{
    if attrs.len() == 0 {
        false
    } else if attr_good(attrs.last()) {
        prefix_global(attr_tokens(attrs.last()))
    } else {
        chosen_global(attrs.drop_last())
    }
}

/// The segment identifiers of the chosen destination prefix.
pub open spec fn chosen_segs(attrs: Seq<Attr>) -> Seq<Seq<char>>
    decreases attrs.len(),
{
    if attrs.len() == 0 {
        Seq::empty()
    } else if attr_good(attrs.last()) {
        prefix_segs(attr_tokens(attrs.last()))
    } else {
        chosen_segs(attrs.drop_last())
    }
}

pub open spec fn fields_list(d: FieldsDecl) -> Seq<FieldDecl> {
    match d {
        FieldsDecl::Named { fields } => fields@,
        FieldsDecl::Unnamed { fields } => fields@,
        FieldsDecl::Unit => Seq::empty(),
    }
}

/// One diagnostic per non-public field, at that field's own span, in
/// declaration order.
pub open spec fn field_vis_diags(fs: Seq<FieldDecl>) -> Seq<(Span, Seq<char>)>
    decreases fs.len(),
{
    if fs.len() == 0 {
        Seq::empty()
    } else {
        field_vis_diags(fs.drop_last()) + if fs.last().is_public {
            Seq::empty()
        } else {
            seq![(fs.last().span, msg_field_not_public())]
        }
    }
}

/// Every diagnostic the declarative generator emits for a non-union
/// declaration, in order: configuration errors, then the missing-
/// configuration error, then the type-visibility error, then one error per
/// non-public struct field. Variant fields are not separately checked.
pub open spec fn derive_diags(d: TypeDecl) -> Seq<(Span, Seq<char>)> {
    config_diags(d.attrs@) + (if has_marker(d.attrs@) {
        Seq::empty()
    } else {
        seq![(d.span, msg_missing())]
    }) + (if d.is_public {
        Seq::empty()
    } else {
        seq![(d.span, msg_not_public())]
    }) + (match d.data {
        Data::Struct { fields } => field_vis_diags(fields_list(fields)),
        _ => Seq::empty(),
    })
}

/// The synthesized body for one product shape: one generation binding per
/// field in declaration order, each spliced at its field's span, and the
/// constructor template matching the field arity.
pub open spec fn flat_ok(
    f: GenFn,
    pg: bool,
    ps: Seq<Seq<char>>,
    name: Seq<char>,
    fields: FieldsDecl,
) -> bool {
    match fields {
        FieldsDecl::Named { fields } => {
            &&& f.lets@.len() == fields@.len()
            &&& forall|i: int|
                0 <= i < fields@.len() ==> let_is_self_field(
                    #[trigger] f.lets@[i],
                    fields@[i].name@,
                    fields@[i].span,
                )
            &&& f.template matches Expr::CtorNamed { path, fields: inits }
            &&& ctor_path_is(path, pg, ps, name, None)
            &&& splices_named(inits@, fields@.map_values(|fd: FieldDecl| fd.name@))
        },
        FieldsDecl::Unnamed { fields } => {
            &&& f.lets@.len() == fields@.len()
            &&& forall|i: int|
                0 <= i < fields@.len() ==> let_is_self_index(
                    #[trigger] f.lets@[i],
                    synth_name("value_"@, i),
                    i,
                    fields@[i].span,
                )
            &&& f.template matches Expr::CtorCall { path, args }
            &&& ctor_path_is(path, pg, ps, name, None)
            &&& splices_positional(
                args@,
                Seq::new(fields@.len(), |i: int| synth_name("value_"@, i)),
            )
        },
        FieldsDecl::Unit => {
            &&& f.lets@.len() == 0
            &&& f.template matches Expr::PathExpr { path }
            &&& ctor_path_is(path, pg, ps, name, None)
        },
    }
}

/// The synthesized arm for one variant: it destructures the variant's fields
/// by name, by synthetic positional names, or not at all, generates each
/// bound sub-value at its field's span, and reassembles the variant's
/// constructor under the destination prefix.
pub open spec fn arm_ok(a: GenArm, pg: bool, ps: Seq<Seq<char>>, ename: Seq<char>, v: Variant) -> bool {
    &&& a.variant@ == v.name@
    &&& match v.fields {
        FieldsDecl::Named { fields } => {
            &&& a.binds matches BindsPat::Named { names } && names@.len() == fields@.len()
                && (forall|i: int|
                0 <= i < fields@.len() ==> (#[trigger] names@[i])@ == fields@[i].name@)
            &&& a.body.lets@.len() == fields@.len()
            &&& forall|i: int|
                0 <= i < fields@.len() ==> let_is_binding_call(
                    #[trigger] a.body.lets@[i],
                    fields@[i].name@,
                    fields@[i].span,
                )
            &&& a.body.template matches Expr::CtorNamed { path, fields: inits }
            &&& ctor_path_is(path, pg, ps, ename, Some(v.name@))
            &&& splices_named(inits@, fields@.map_values(|fd: FieldDecl| fd.name@))
        },
        FieldsDecl::Unnamed { fields } => {
            &&& a.binds matches BindsPat::Positional { names } && names@.len() == fields@.len()
                && (forall|i: int|
                0 <= i < fields@.len() ==> (#[trigger] names@[i])@ == synth_name("x"@, i))
            &&& a.body.lets@.len() == fields@.len()
            &&& forall|i: int|
                0 <= i < fields@.len() ==> let_is_binding_call(
                    #[trigger] a.body.lets@[i],
                    synth_name("x"@, i),
                    fields@[i].span,
                )
            &&& a.body.template matches Expr::CtorCall { path, args }
            &&& ctor_path_is(path, pg, ps, ename, Some(v.name@))
            &&& splices_positional(args@, Seq::new(fields@.len(), |i: int| synth_name("x"@, i)))
        },
        FieldsDecl::Unit => {
            &&& a.binds is Unit
            &&& a.body.lets@.len() == 0
            &&& a.body.template matches Expr::PathExpr { path }
            &&& ctor_path_is(path, pg, ps, ename, Some(v.name@))
        },
    }
}

/// The whole synthesized body matches the declared shape: a flat body for a
/// product, one arm per variant in declaration order for a sum.
pub open spec fn body_ok(d: Data, pg: bool, ps: Seq<Seq<char>>, name: Seq<char>, b: GenBody) -> bool {
    match d {
        Data::Struct { fields } => {
            &&& b matches GenBody::Flat { f }
            &&& flat_ok(f, pg, ps, name, fields)
        },
        Data::Enum { variants } => {
            &&& b matches GenBody::Match { arms }
            &&& arms@.len() == variants@.len()
            &&& forall|i: int|
                0 <= i < variants@.len() ==> arm_ok(#[trigger] arms@[i], pg, ps, name, variants@[i])
        },
        Data::Union => false,
    }
}

/// Extracts the segment identifiers of a parsed plain path.
fn idents_of(p: &TypePath) -> (r: Vec<String>)
    ensures
        r@.len() == p.segs@.len(),
        forall|i: int| 0 <= i < p.segs@.len() ==> (#[trigger] r@[i])@ == p.segs@[i].ident@,
{
    let mut r: Vec<String> = Vec::new();
    let mut i: usize = 0;
    while i < p.segs.len()
        invariant
            i <= p.segs@.len(),
            r@.len() == i,
            forall|j: int| 0 <= j < i ==> (#[trigger] r@[j])@ == p.segs@[j].ident@,
        decreases p.segs@.len() - i,
    {
        r.push(clone_string(&p.segs[i].ident));
        i = i + 1;
    }
    r
}

/// Reads the configuration off the declaration's annotations: whether any
/// marker annotation was found, the chosen destination prefix (the last
/// well-formed one wins, the empty prefix stands when none is), and every
/// configuration diagnostic, appended in declaration order.
fn collect_config(attrs: &Vec<Attr>, errors: &mut Vec<Diag>) -> (r: (bool, bool, Vec<String>))
    ensures
        r.0 == has_marker(attrs@),
        r.1 == chosen_global(attrs@),
        str_views(r.2@) == chosen_segs(attrs@),
        diags_proj(final(errors)@) == diags_proj(old(errors)@) + config_diags(attrs@),
{
    let mut found = false;
    let mut pglobal = false;
    let mut psegs: Vec<String> = Vec::new();
    let mut i: usize = 0;
    while i < attrs.len()
        invariant
            i <= attrs@.len(),
            found == has_marker(attrs@.subrange(0, i as int)),
            pglobal == chosen_global(attrs@.subrange(0, i as int)),
            str_views(psegs@) == chosen_segs(attrs@.subrange(0, i as int)),
            diags_proj(errors@) == diags_proj(old(errors)@) + config_diags(
                attrs@.subrange(0, i as int),
            ),
        decreases attrs@.len() - i,
    {
        let ghost pre = attrs@.subrange(0, i as int);
        let a = &attrs[i];
        let is_marker = a.path.len() == 1 && str_eq(a.path[0].as_str(), "transmogrify");
        if is_marker {
            found = true;
            match &a.shape {
                MetaShape::List { tokens, tokens_span } => {
                    match parse_prefix_attr(tokens, *tokens_span) {
                        Ok(p) => {
                            pglobal = p.global;
                            psegs = idents_of(&p);
                            proof {
                                let cur = attrs@[i as int];
                                assert(str_views(psegs@) =~= prefix_segs(attr_tokens(cur)));
                            }
                        },
                        Err(d) => {
                            let ghost before = errors@;
                            errors.push(d);
                            proof {
                                assert(diags_proj(errors@) =~= diags_proj(before) + attr_diags(
                                    attrs@[i as int],
                                ));
                            }
                        },
                    }
                },
                _ => {
                    let ghost before = errors@;
                    errors.push(Diag::new(a.span, "must be of the form #[transmogrify(prefix = <path>)]"));
                    proof {
                        assert(diags_proj(errors@) =~= diags_proj(before) + attr_diags(
                            attrs@[i as int],
                        ));
                    }
                },
            }
        }
        proof {
            assert(attrs@.subrange(0, i + 1 as int).drop_last() =~= pre);
            assert(attrs@.subrange(0, i + 1 as int).last() == attrs@[i as int]);
            assert(diags_proj(errors@) =~= diags_proj(old(errors)@) + config_diags(
                attrs@.subrange(0, i + 1 as int),
            ));
        }
        i = i + 1;
    }
    proof {
        assert(attrs@.subrange(0, attrs@.len() as int) =~= attrs@);
    }
    (found, pglobal, psegs)
}

/// Assembles the constructor path: the destination prefix, the type name, and
/// (for a variant arm) the variant name. An empty prefix leaves the path
/// rooted, mirroring how an absent configuration still produces best-effort
/// output.
fn ctor_path(pglobal: bool, psegs: &Vec<String>, name: &String, variant: Option<&String>) -> (r:
    Path)
    ensures
        ctor_path_is(
            r,
            pglobal,
            str_views(psegs@),
            name@,
            match variant {
                Some(v) => Some(v@),
                None => None,
            },
        ),
{
    let mut segs: Vec<String> = Vec::new();
    let mut i: usize = 0;
    while i < psegs.len()
        invariant
            i <= psegs@.len(),
            segs@.len() == i,
            forall|j: int| 0 <= j < i ==> (#[trigger] segs@[j])@ == psegs@[j]@,
        decreases psegs@.len() - i,
    {
        segs.push(clone_string(&psegs[i]));
        i = i + 1;
    }
    segs.push(clone_string(name));
    match variant {
        Some(v) => {
            segs.push(clone_string(v));
        },
        None => {},
    }
    Path { global: pglobal || psegs.len() == 0, segs }
}

/// One generation binding per named field of the implicit self value.
fn named_lets_self(fields: &Vec<FieldDecl>) -> (lets: Vec<GenLet>)
    ensures
        lets@.len() == fields@.len(),
        forall|i: int|
            0 <= i < fields@.len() ==> let_is_self_field(
                #[trigger] lets@[i],
                fields@[i].name@,
                fields@[i].span,
            ),
{
    let mut lets: Vec<GenLet> = Vec::new();
    let mut i: usize = 0;
    while i < fields.len()
        invariant
            i <= fields@.len(),
            lets@.len() == i,
            forall|j: int|
                0 <= j < i ==> let_is_self_field(
                    #[trigger] lets@[j],
                    fields@[j].name@,
                    fields@[j].span,
                ),
        decreases fields@.len() - i,
    {
        let f = &fields[i];
        lets.push(
            GenLet {
                bind: clone_string(&f.name),
                source: GenSource::SelfField { name: clone_string(&f.name) },
                span: f.span,
            },
        );
        i = i + 1;
    }
    lets
}

/// One generation binding per positional field of the implicit self value,
/// each bound to a fresh synthetic name.
fn positional_lets_self(fields: &Vec<FieldDecl>) -> (lets: Vec<GenLet>)
    ensures
        lets@.len() == fields@.len(),
        forall|i: int|
            0 <= i < fields@.len() ==> let_is_self_index(
                #[trigger] lets@[i],
                synth_name("value_"@, i),
                i,
                fields@[i].span,
            ),
{
    let mut lets: Vec<GenLet> = Vec::new();
    let mut i: usize = 0;
    while i < fields.len()
        invariant
            i <= fields@.len(),
            lets@.len() == i,
            forall|j: int|
                0 <= j < i ==> let_is_self_index(
                    #[trigger] lets@[j],
                    synth_name("value_"@, j),
                    j,
                    fields@[j].span,
                ),
        decreases fields@.len() - i,
    {
        let f = &fields[i];
        lets.push(
            GenLet {
                bind: crate::numfmt::synth_ident("value_", i),
                source: GenSource::SelfIndex { index: i },
                span: f.span,
            },
        );
        i = i + 1;
    }
    lets
}

/// One generation binding per field already bound by the arm's pattern.
fn binding_lets(fields: &Vec<FieldDecl>) -> (lets: Vec<GenLet>)
    ensures
        lets@.len() == fields@.len(),
        forall|i: int|
            0 <= i < fields@.len() ==> let_is_binding_call(
                #[trigger] lets@[i],
                fields@[i].name@,
                fields@[i].span,
            ),
{
    let mut lets: Vec<GenLet> = Vec::new();
    let mut i: usize = 0;
    while i < fields.len()
        invariant
            i <= fields@.len(),
            lets@.len() == i,
            forall|j: int|
                0 <= j < i ==> let_is_binding_call(#[trigger] lets@[j], fields@[j].name@, fields@[j].span),
        decreases fields@.len() - i,
    {
        let f = &fields[i];
        lets.push(
            GenLet {
                bind: clone_string(&f.name),
                source: GenSource::BindingCall { name: clone_string(&f.name) },
                span: f.span,
            },
        );
        i = i + 1;
    }
    lets
}

/// One generation binding per positional pattern element, each rebound to a
/// fresh synthetic name.
fn synth_binding_lets(fields: &Vec<FieldDecl>, pref: &str) -> (lets: Vec<GenLet>)
    ensures
        lets@.len() == fields@.len(),
        forall|i: int|
            0 <= i < fields@.len() ==> let_is_binding_call(
                #[trigger] lets@[i],
                synth_name(pref@, i),
                fields@[i].span,
            ),
{
    let mut lets: Vec<GenLet> = Vec::new();
    let mut i: usize = 0;
    while i < fields.len()
        invariant
            i <= fields@.len(),
            lets@.len() == i,
            forall|j: int|
                0 <= j < i ==> let_is_binding_call(#[trigger] lets@[j], synth_name(pref@, j), fields@[j].span),
        decreases fields@.len() - i,
    {
        let f = &fields[i];
        let n = crate::numfmt::synth_ident(pref, i);
        lets.push(
            GenLet {
                bind: clone_string(&n),
                source: GenSource::BindingCall { name: n },
                span: f.span,
            },
        );
        i = i + 1;
    }
    lets
}

/// One interpolation marker per named field, in order.
fn named_splices(fields: &Vec<FieldDecl>) -> (inits: Vec<FieldInit>)
    ensures
        splices_named(inits@, fields@.map_values(|fd: FieldDecl| fd.name@)),
{
    let mut inits: Vec<FieldInit> = Vec::new();
    let mut i: usize = 0;
    while i < fields.len()
        invariant
            i <= fields@.len(),
            inits@.len() == i,
            forall|j: int|
                0 <= j < i ==> {
                    &&& (#[trigger] inits@[j]).name@ == fields@[j].name@
                    &&& inits@[j].e matches Expr::Splice { name } && name@ == fields@[j].name@
                },
        decreases fields@.len() - i,
    {
        let f = &fields[i];
        inits.push(
            FieldInit {
                name: clone_string(&f.name),
                e: Expr::Splice { name: clone_string(&f.name) },
            },
        );
        i = i + 1;
    }
    inits
}

/// One interpolation marker per positional slot, under synthetic names.
fn positional_splices(n: usize, pref: &str) -> (args: Vec<Expr>)
    ensures
        splices_positional(args@, Seq::new(n as nat, |i: int| synth_name(pref@, i))),
{
    let mut args: Vec<Expr> = Vec::new();
    let mut i: usize = 0;
    while i < n
        invariant
            i <= n,
            args@.len() == i,
            forall|j: int|
                0 <= j < i ==> {
                    &&& (#[trigger] args@[j]) matches Expr::Splice { name } && name@ == synth_name(
                        pref@,
                        j,
                    )
                },
        decreases n - i,
    {
        args.push(Expr::Splice { name: crate::numfmt::synth_ident(pref, i) });
        i = i + 1;
    }
    args
}

/// The synthetic names an arm's pattern binds, in order.
fn synth_names(n: usize, pref: &str) -> (names: Vec<String>)
    ensures
        names@.len() == n,
        forall|i: int| 0 <= i < n ==> (#[trigger] names@[i])@ == synth_name(pref@, i),
{
    let mut names: Vec<String> = Vec::new();
    let mut i: usize = 0;
    while i < n
        invariant
            i <= n,
            names@.len() == i,
            forall|j: int| 0 <= j < i ==> (#[trigger] names@[j])@ == synth_name(pref@, j),
        decreases n - i,
    {
        names.push(crate::numfmt::synth_ident(pref, i));
        i = i + 1;
    }
    names
}

/// The field names an arm's pattern binds, in order.
fn field_names(fields: &Vec<FieldDecl>) -> (names: Vec<String>)
    ensures
        names@.len() == fields@.len(),
        forall|i: int| 0 <= i < fields@.len() ==> (#[trigger] names@[i])@ == fields@[i].name@,
{
    let mut names: Vec<String> = Vec::new();
    let mut i: usize = 0;
    while i < fields.len()
        invariant
            i <= fields@.len(),
            names@.len() == i,
            forall|j: int| 0 <= j < i ==> (#[trigger] names@[j])@ == fields@[j].name@,
        decreases fields@.len() - i,
    {
        names.push(clone_string(&fields[i].name));
        i = i + 1;
    }
    names
}

/// Synthesizes the flat body for a product shape.
fn flat_body(fields: &FieldsDecl, ctor: Path) -> (f: GenFn)
    requires
        ctor.segs@.len() > 0,
    ensures
        forall|pg: bool, ps: Seq<Seq<char>>, name: Seq<char>|
            ctor_path_is(ctor, pg, ps, name, None) ==> #[trigger] flat_ok(f, pg, ps, name, *fields),
{
    match fields {
        FieldsDecl::Named { fields } => GenFn {
            lets: named_lets_self(fields),
            template: Expr::CtorNamed { path: ctor, fields: named_splices(fields) },
        },
        FieldsDecl::Unnamed { fields } => GenFn {
            lets: positional_lets_self(fields),
            template: Expr::CtorCall { path: ctor, args: positional_splices(fields.len(), "value_") },
        },
        FieldsDecl::Unit => GenFn { lets: Vec::new(), template: Expr::PathExpr { path: ctor } },
    }
}

/// Synthesizes one match arm for a variant.
fn variant_arm(v: &Variant, ctor: Path) -> (a: GenArm)
    ensures
        a.variant@ == v.name@,
        forall|pg: bool, ps: Seq<Seq<char>>, ename: Seq<char>|
            ctor_path_is(ctor, pg, ps, ename, Some(v.name@)) ==> #[trigger] arm_ok(
                a,
                pg,
                ps,
                ename,
                *v,
            ),
{
    match &v.fields {
        FieldsDecl::Named { fields } => GenArm {
            variant: clone_string(&v.name),
            binds: BindsPat::Named { names: field_names(fields) },
            body: GenFn {
                lets: binding_lets(fields),
                template: Expr::CtorNamed { path: ctor, fields: named_splices(fields) },
            },
        },
        FieldsDecl::Unnamed { fields } => GenArm {
            variant: clone_string(&v.name),
            binds: BindsPat::Positional { names: synth_names(fields.len(), "x") },
            body: GenFn {
                lets: synth_binding_lets(fields, "x"),
                template: Expr::CtorCall { path: ctor, args: positional_splices(fields.len(), "x") },
            },
        },
        FieldsDecl::Unit => GenArm {
            variant: clone_string(&v.name),
            binds: BindsPat::Unit,
            body: GenFn { lets: Vec::new(), template: Expr::PathExpr { path: ctor } },
        },
    }
}

/// Appends one visibility diagnostic per non-public field, in order.
fn push_field_vis_diags(fs: &Vec<FieldDecl>, errors: &mut Vec<Diag>)
    ensures
        diags_proj(final(errors)@) == diags_proj(old(errors)@) + field_vis_diags(fs@),
{
    let mut i: usize = 0;
    while i < fs.len()
        invariant
            i <= fs@.len(),
            diags_proj(errors@) == diags_proj(old(errors)@) + field_vis_diags(
                fs@.subrange(0, i as int),
            ),
        decreases fs@.len() - i,
    {
        let ghost pre = fs@.subrange(0, i as int);
        if !fs[i].is_public {
            let ghost before = errors@;
            errors.push(Diag::new(fs[i].span, "struct fields must be pub"));
            proof {
                assert(diags_proj(errors@) =~= diags_proj(before) + seq![
                    (fs@[i as int].span, msg_field_not_public()),
                ]);
            }
        }
        proof {
            assert(fs@.subrange(0, i + 1 as int).drop_last() =~= pre);
            assert(fs@.subrange(0, i + 1 as int).last() == fs@[i as int]);
            assert(diags_proj(errors@) =~= diags_proj(old(errors)@) + field_vis_diags(
                fs@.subrange(0, i + 1 as int),
            ));
        }
        i = i + 1;
    }
    proof {
        assert(fs@.subrange(0, fs@.len() as int) =~= fs@);
    }
}

/// The declarative generator. Collects every structural violation as a
/// diagnostic — a missing or malformed configuration, a non-public type, a
/// non-public struct field — and still synthesizes a best-effort generator
/// body alongside them; only a union-shaped declaration is fatal.
pub fn transmogrify_derive(decl: &TypeDecl) -> (r: Result<DeriveOutput, Diag>)
    ensures
        r is Err <==> decl.data is Union,
        r matches Err(d) ==> d.span == decl.span && d.msg@ == msg_union(),
        r matches Ok(out) ==> out.name@ == decl.name@ && out.generics.impl_generics@
            == decl.generics.impl_generics@ && out.generics.ty_generics@
            == decl.generics.ty_generics@ && out.generics.where_clause@
            == decl.generics.where_clause@,
        r matches Ok(out) ==> diags_proj(out.errors@) == derive_diags(*decl),
        r matches Ok(out) ==> body_ok(
            decl.data,
            chosen_global(decl.attrs@),
            chosen_segs(decl.attrs@),
            decl.name@,
            out.body,
        ),
{
    let mut errors: Vec<Diag> = Vec::new();
    let (found, pglobal, psegs) = collect_config(&decl.attrs, &mut errors);

    if !found {
        let ghost before = errors@;
        errors.push(
            Diag::new(decl.span, "must specify a path prefix #[transmogrify(prefix = <path>)]"),
        );
        proof {
            assert(diags_proj(errors@) =~= diags_proj(before) + seq![(decl.span, msg_missing())]);
        }
    }
    if !decl.is_public {
        let ghost before = errors@;
        errors.push(
            Diag::new(decl.span, "the type must be pub for consumers to use Transmogrify output"),
        );
        proof {
            assert(diags_proj(errors@) =~= diags_proj(before) + seq![
                (decl.span, msg_not_public()),
            ]);
        }
    }
    match &decl.data {
        Data::Struct { fields } => {
            match fields {
                FieldsDecl::Named { fields } => push_field_vis_diags(fields, &mut errors),
                FieldsDecl::Unnamed { fields } => push_field_vis_diags(fields, &mut errors),
                FieldsDecl::Unit => {},
            }
        },
        Data::Enum { .. } => {},
        Data::Union => {
            return Err(Diag::new(decl.span, "Transmogrify my not be derived from unions"));
        },
    }

    let body: GenBody = match &decl.data {
        Data::Struct { fields } => {
            let ctor = ctor_path(pglobal, &psegs, &decl.name, None);
            GenBody::Flat { f: flat_body(fields, ctor) }
        },
        Data::Enum { variants } => {
            let mut arms: Vec<GenArm> = Vec::new();
            let mut i: usize = 0;
            while i < variants.len()
                invariant
                    i <= variants@.len(),
                    arms@.len() == i,
                    forall|j: int|
                        0 <= j < i ==> arm_ok(
                            #[trigger] arms@[j],
                            chosen_global(decl.attrs@),
                            chosen_segs(decl.attrs@),
                            decl.name@,
                            variants@[j],
                        ),
                    pglobal == chosen_global(decl.attrs@),
                    str_views(psegs@) == chosen_segs(decl.attrs@),
                decreases variants@.len() - i,
            {
                let v = &variants[i];
                let ctor = ctor_path(pglobal, &psegs, &decl.name, Some(&v.name));
                arms.push(variant_arm(v, ctor));
                i = i + 1;
            }
            GenBody::Match { arms }
        },
        Data::Union => {
            // Unreachable: a union returned above.
            GenBody::Flat {
                f: GenFn {
                    lets: Vec::new(),
                    template: Expr::PathExpr { path: Path { global: false, segs: Vec::new() } },
                },
            }
        },
    };

    Ok(
        DeriveOutput {
            errors,
            name: clone_string(&decl.name),
            generics: Generics {
                impl_generics: clone_string(&decl.generics.impl_generics),
                ty_generics: clone_string(&decl.generics.ty_generics),
                where_clause: clone_string(&decl.generics.where_clause),
            },
            body,
        },
    )
}

} // verus!
