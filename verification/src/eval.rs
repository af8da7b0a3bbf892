//! Evaluation of generated fragments, and the laws tying generation to it.
//!
//! [`evals_to`] states what value a literal-construction fragment rebuilds
//! when it is compiled and run elsewhere. The round-trip law proves that
//! generating a fragment from any well-formed value and evaluating it gives
//! back a structurally equal value, field for field and variant for variant.

use vstd::prelude::*;

use crate::expr::Expr;
use crate::path::{path_eq, Path};
use crate::value::{is_gen, VEntry, VFields, Value};

verus! {

/// `evals_to(e, v)` holds when evaluating the fragment `e` rebuilds exactly
/// the value `v`. A fragment with an interpolation marker still in it
/// evaluates to nothing; an unwrap-style nonzero assertion evaluates only
/// when the asserted value really is nonzero.
pub open spec fn evals_to(e: Expr, v: Value) -> bool
    decreases e,
{
    match e {
        Expr::PathExpr { path } => v matches Value::Composite { path: p, fields }
            && path_eq(path, p) && fields is Unit,
        Expr::CtorCall { path, args } => {
            &&& v matches Value::Composite { path: p, fields }
            &&& path_eq(path, p)
            &&& fields matches VFields::Positional { items }
            &&& items@.len() == args@.len()
            &&& forall|i: int| 0 <= i < args@.len() ==> evals_to(#[trigger] args@[i], items@[i])
        },
        Expr::CtorNamed { path, fields } => {
            &&& v matches Value::Composite { path: p, fields: vf }
            &&& path_eq(path, p)
            &&& vf matches VFields::Named { fields: nfs }
            &&& nfs@.len() == fields@.len()
            &&& forall|i: int|
                0 <= i < fields@.len() ==> (#[trigger] fields@[i]).name@ == nfs@[i].name@
                    && evals_to(fields@[i].e, nfs@[i].v)
        },
        Expr::Splice { .. } => false,
        Expr::LitBool { b } => v == (Value::Bool { b }),
        Expr::LitUInt { k, v: n } => v == (Value::UInt { k, v: n }),
        Expr::LitSInt { k, v: n } => v == (Value::SInt { k, v: n }),
        Expr::StrFrom { s } => v matches Value::Text { s: t } && t@ == s@,
        Expr::SomeOf { e: sub } => v matches Value::SomeV { v: inner } && evals_to(*sub, *inner),
        Expr::NoneLit => v is NoneV,
        Expr::BoxNew { e: sub } => v matches Value::Boxed { v: inner } && evals_to(*sub, *inner),
        Expr::VecNew => v matches Value::List { items } && items@.len() == 0,
        Expr::VecFrom { es } => v matches Value::List { items } && items@.len() == es@.len()
            && forall|i: int| 0 <= i < es@.len() ==> evals_to(#[trigger] es@[i], items@[i]),
        Expr::MapNew => v matches Value::MapV { entries } && entries@.len() == 0,
        Expr::MapFrom { entries } => v matches Value::MapV { entries: vs } && vs@.len()
            == entries@.len() && forall|i: int|
            0 <= i < entries@.len() ==> evals_to((#[trigger] entries@[i]).k, vs@[i].k) && evals_to(
                entries@[i].v,
                vs@[i].v,
            ),
        Expr::SetNew => v matches Value::SetV { items } && items@.len() == 0,
        Expr::SetFrom { es } => v matches Value::SetV { items } && items@.len() == es@.len()
            && forall|i: int| 0 <= i < es@.len() ==> evals_to(#[trigger] es@[i], items@[i]),
        Expr::NonZeroU { k, v: n } => n != 0 && v == (Value::NonZeroU { k, v: n }),
        Expr::NonZeroI { k, v: n } => n != 0 && v == (Value::NonZeroI { k, v: n }),
        Expr::DateTimeFrom { secs, nanos } => v == (Value::DateTime { secs, nanos }),
    }
}

/// Round-trip shape fidelity: the fragment generated for any well-formed
/// value evaluates back to a value structurally equal to the original,
/// field for field and variant for variant.
pub proof fn lemma_round_trip(v: Value, e: Expr)
    requires
        v.wf(),
        is_gen(v, e),
    ensures
        evals_to(e, v),
    decreases v,
{
    match v {
        Value::SomeV { v: inner } => {
            lemma_round_trip(*inner, *e->SomeOf_e);
        },
        Value::Boxed { v: inner } => {
            lemma_round_trip(*inner, *e->BoxNew_e);
        },
        Value::List { items } => {
            if items@.len() > 0 {
                let es = e->VecFrom_es;
                assert forall|i: int| 0 <= i < es@.len() implies evals_to(
                    #[trigger] es@[i],
                    items@[i],
                ) by {
                    lemma_round_trip(items@[i], es@[i]);
                }
            }
        },
        Value::SetV { items } => {
            if items@.len() > 0 {
                let es = e->SetFrom_es;
                assert forall|i: int| 0 <= i < es@.len() implies evals_to(
                    #[trigger] es@[i],
                    items@[i],
                ) by {
                    lemma_round_trip(items@[i], es@[i]);
                }
            }
        },
        Value::MapV { entries } => {
            if entries@.len() > 0 {
                let es = e->MapFrom_entries;
                assert forall|i: int| 0 <= i < es@.len() implies evals_to(
                    (#[trigger] es@[i]).k,
                    entries@[i].k,
                ) && evals_to(es@[i].v, entries@[i].v) by {
                    assert(decreases_to!(entries@[i] => entries@[i].k));
                    assert(decreases_to!(entries@[i] => entries@[i].v));
                    lemma_round_trip(entries@[i].k, es@[i].k);
                    lemma_round_trip(entries@[i].v, es@[i].v);
                }
            }
        },
        Value::Composite { path, fields } => {
            match fields {
                VFields::Positional { items } => {
                    let args = e->CtorCall_args;
                    assert forall|i: int| 0 <= i < args@.len() implies evals_to(
                        #[trigger] args@[i],
                        items@[i],
                    ) by {
                        lemma_round_trip(items@[i], args@[i]);
                    }
                },
                VFields::Named { fields: nfs } => {
                    let fs = e->CtorNamed_fields;
                    assert forall|i: int| 0 <= i < fs@.len() implies evals_to(
                        (#[trigger] fs@[i]).e,
                        nfs@[i].v,
                    ) by {
                        assert(decreases_to!(nfs@[i] => nfs@[i].v));
                        lemma_round_trip(nfs@[i].v, fs@[i].e);
                    }
                },
                VFields::Unit => {},
            }
        },
        _ => {},
    }
}

/// Empty-collection canonicalization: an empty list, map or set generates the
/// bare empty-constructor form, never an element-wise literal with zero
/// elements.
pub proof fn lemma_empty_collection(v: Value, e: Expr)
    requires
        is_gen(v, e),
    ensures
        v matches Value::List { items } && items@.len() == 0 ==> e is VecNew,
        v matches Value::MapV { entries } && entries@.len() == 0 ==> e is MapNew,
        v matches Value::SetV { items } && items@.len() == 0 ==> e is SetNew,
        e matches Expr::VecFrom { es } ==> es@.len() > 0,
        e matches Expr::MapFrom { entries } ==> entries@.len() > 0,
        e matches Expr::SetFrom { es } ==> es@.len() > 0,
{
}

/// The fragment `e` is an element-wise list literal holding one generated
/// sub-fragment per element of `items`, in exactly that order.
pub open spec fn list_order_kept(items: Seq<Value>, e: Expr) -> bool {
    &&& e matches Expr::VecFrom { es }
    &&& es@.len() == items.len()
    &&& forall|i: int| 0 <= i < items.len() ==> is_gen(#[trigger] items[i], es@[i])
}

/// The fragment `e` is an entry-wise map literal holding one generated
/// key/value pair per entry of `entries`, in exactly that order.
pub open spec fn map_order_kept(entries: Seq<VEntry>, e: Expr) -> bool {
    &&& e matches Expr::MapFrom { entries: es }
    &&& es@.len() == entries.len()
    &&& forall|i: int|
        0 <= i < entries.len() ==> is_gen((#[trigger] entries[i]).k, es@[i].k) && is_gen(
            entries[i].v,
            es@[i].v,
        )
}

/// Order preservation: the fragment generated for a non-empty ordered list
/// holds one sub-fragment per element, in exactly the original element order,
/// and the fragment generated for a non-empty ordered map holds one key/value
/// pair per entry, in exactly the original entry order.
pub proof fn lemma_order_preservation(v: Value, e: Expr)
    requires
        is_gen(v, e),
    ensures
        v matches Value::List { items } ==> items@.len() > 0 ==> list_order_kept(items@, e),
        v matches Value::MapV { entries } ==> entries@.len() > 0 ==> map_order_kept(entries@, e),
{
}

} // verus!

verus! {

/// Two fragments are the same up to the texts of their identifiers, field
/// names and string literals.
pub open spec fn expr_eqv(a: Expr, b: Expr) -> bool
    decreases a,
{
    match a {
        Expr::PathExpr { path } => b matches Expr::PathExpr { path: q } && path_eq(path, q),
        Expr::CtorCall { path, args } => {
            &&& b matches Expr::CtorCall { path: q, args: bargs }
            &&& path_eq(path, q)
            &&& args@.len() == bargs@.len()
            &&& forall|i: int| 0 <= i < args@.len() ==> expr_eqv(#[trigger] args@[i], bargs@[i])
        },
        Expr::CtorNamed { path, fields } => {
            &&& b matches Expr::CtorNamed { path: q, fields: bfs }
            &&& path_eq(path, q)
            &&& fields@.len() == bfs@.len()
            &&& forall|i: int|
                0 <= i < fields@.len() ==> (#[trigger] fields@[i]).name@ == bfs@[i].name@
                    && expr_eqv(fields@[i].e, bfs@[i].e)
        },
        Expr::Splice { name } => b matches Expr::Splice { name: m } && m@ == name@,
        Expr::LitBool { .. } => b == a,
        Expr::LitUInt { .. } => b == a,
        Expr::LitSInt { .. } => b == a,
        Expr::StrFrom { s } => b matches Expr::StrFrom { s: t } && t@ == s@,
        Expr::SomeOf { e } => b matches Expr::SomeOf { e: f } && expr_eqv(*e, *f),
        Expr::NoneLit => b is NoneLit,
        Expr::BoxNew { e } => b matches Expr::BoxNew { e: f } && expr_eqv(*e, *f),
        Expr::VecNew => b is VecNew,
        Expr::VecFrom { es } => {
            &&& b matches Expr::VecFrom { es: bes }
            &&& es@.len() == bes@.len()
            &&& forall|i: int| 0 <= i < es@.len() ==> expr_eqv(#[trigger] es@[i], bes@[i])
        },
        Expr::MapNew => b is MapNew,
        Expr::MapFrom { entries } => {
            &&& b matches Expr::MapFrom { entries: bes }
            &&& entries@.len() == bes@.len()
            &&& forall|i: int|
                0 <= i < entries@.len() ==> expr_eqv((#[trigger] entries@[i]).k, bes@[i].k)
                    && expr_eqv(entries@[i].v, bes@[i].v)
        },
        Expr::SetNew => b is SetNew,
        Expr::SetFrom { es } => {
            &&& b matches Expr::SetFrom { es: bes }
            &&& es@.len() == bes@.len()
            &&& forall|i: int| 0 <= i < es@.len() ==> expr_eqv(#[trigger] es@[i], bes@[i])
        },
        Expr::NonZeroU { .. } => b == a,
        Expr::NonZeroI { .. } => b == a,
        Expr::DateTimeFrom { .. } => b == a,
    }
}

/// Two paths equal to a third are equal to each other.
proof fn lemma_path_eq_pair(a: Path, b: Path, c: Path)
    requires
        path_eq(a, c),
        path_eq(b, c),
    ensures
        path_eq(a, b),
{
    assert forall|i: int| 0 <= i < a.segs@.len() implies a.segs@[i]@ == #[trigger] b.segs@[i]@ by {
        assert(a.segs@[i]@ == c.segs@[i]@);
        assert(b.segs@[i]@ == c.segs@[i]@);
    }
}

/// The generation rules pin the fragment down: any two fragments generated
/// for the same value are the same up to identifier and literal texts.
pub proof fn lemma_gen_unique(v: Value, e1: Expr, e2: Expr)
    requires
        is_gen(v, e1),
        is_gen(v, e2),
    ensures
        expr_eqv(e1, e2),
    decreases v,
{
    match v {
        Value::SomeV { v: inner } => {
            lemma_gen_unique(*inner, *e1->SomeOf_e, *e2->SomeOf_e);
        },
        Value::Boxed { v: inner } => {
            lemma_gen_unique(*inner, *e1->BoxNew_e, *e2->BoxNew_e);
        },
        Value::List { items } => {
            if items@.len() > 0 {
                let a = e1->VecFrom_es;
                let b = e2->VecFrom_es;
                assert forall|i: int| 0 <= i < a@.len() implies expr_eqv(
                    #[trigger] a@[i],
                    b@[i],
                ) by {
                    lemma_gen_unique(items@[i], a@[i], b@[i]);
                }
            }
        },
        Value::SetV { items } => {
            if items@.len() > 0 {
                let a = e1->SetFrom_es;
                let b = e2->SetFrom_es;
                assert forall|i: int| 0 <= i < a@.len() implies expr_eqv(
                    #[trigger] a@[i],
                    b@[i],
                ) by {
                    lemma_gen_unique(items@[i], a@[i], b@[i]);
                }
            }
        },
        Value::MapV { entries } => {
            if entries@.len() > 0 {
                let a = e1->MapFrom_entries;
                let b = e2->MapFrom_entries;
                assert forall|i: int| 0 <= i < a@.len() implies expr_eqv(
                    (#[trigger] a@[i]).k,
                    b@[i].k,
                ) && expr_eqv(a@[i].v, b@[i].v) by {
                    assert(decreases_to!(entries@[i] => entries@[i].k));
                    assert(decreases_to!(entries@[i] => entries@[i].v));
                    lemma_gen_unique(entries@[i].k, a@[i].k, b@[i].k);
                    lemma_gen_unique(entries@[i].v, a@[i].v, b@[i].v);
                }
            }
        },
        Value::Composite { path, fields } => {
            match fields {
                VFields::Positional { items } => {
                    lemma_path_eq_pair(e1->CtorCall_path, e2->CtorCall_path, path);
                    let a = e1->CtorCall_args;
                    let b = e2->CtorCall_args;
                    assert forall|i: int| 0 <= i < a@.len() implies expr_eqv(
                        #[trigger] a@[i],
                        b@[i],
                    ) by {
                        lemma_gen_unique(items@[i], a@[i], b@[i]);
                    }
                },
                VFields::Named { fields: nfs } => {
                    lemma_path_eq_pair(e1->CtorNamed_path, e2->CtorNamed_path, path);
                    let a = e1->CtorNamed_fields;
                    let b = e2->CtorNamed_fields;
                    assert forall|i: int| 0 <= i < a@.len() implies (#[trigger] a@[i]).name@
                        == b@[i].name@ && expr_eqv(a@[i].e, b@[i].e) by {
                        assert(decreases_to!(nfs@[i] => nfs@[i].v));
                        lemma_gen_unique(nfs@[i].v, a@[i].e, b@[i].e);
                    }
                },
                VFields::Unit => {
                    lemma_path_eq_pair(e1->PathExpr_path, e2->PathExpr_path, path);
                },
            }
        },
        _ => {},
    }
}

} // verus!
