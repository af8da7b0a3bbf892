//! The value model and the leaf rule library.
//!
//! A [`Value`] is the runtime shape a generator runs on: the primitive and
//! standard-container leaves, plus composite (struct- or variant-shaped)
//! values. [`is_gen`] states, value by value, which fragment the generation
//! rules produce; [`Value::transmogrify`] is the executable generator, and is
//! proved to satisfy `is_gen` on every well-formed value.

use vstd::prelude::*;

use crate::expr::{Entry, Expr, FieldInit, SIntKind, UIntKind};
use crate::path::{clone_path, clone_string, path_eq, Path};

verus! {

/// A value the engine can reconstruct as a literal expression.
#[derive(Debug)]
pub enum Value {
    Bool { b: bool },
    UInt { k: UIntKind, v: u128 },
    SInt { k: SIntKind, v: i128 },
    Text { s: String },
    /// The absent case of an optional value.
    NoneV,
    /// The present case of an optional value, wrapping one sub-value.
    SomeV { v: Box<Value> },
    /// An exclusively owned sub-value.
    Boxed { v: Box<Value> },
    /// An ordered list.
    List { items: Vec<Value> },
    /// An ordered key/value mapping, in iteration order.
    MapV { entries: Vec<VEntry> },
    /// An ordered set, in iteration order.
    SetV { items: Vec<Value> },
    /// A bounded-nonzero unsigned integer.
    NonZeroU { k: UIntKind, v: u128 },
    /// A bounded-nonzero signed integer.
    NonZeroI { k: SIntKind, v: i128 },
    /// A point in time: whole seconds and subsecond nanoseconds.
    DateTime { secs: i64, nanos: u32 },
    /// A struct or enum-variant value under its constructor path.
    Composite { path: Path, fields: VFields },
}

/// One map entry.
#[derive(Debug)]
pub struct VEntry {
    pub k: Value,
    pub v: Value,
}

/// The field arity of a composite value.
#[derive(Debug)]
pub enum VFields {
    Named { fields: Vec<NamedV> },
    Positional { items: Vec<Value> },
    Unit,
}

/// One named field of a composite value.
#[derive(Debug)]
pub struct NamedV {
    pub name: String,
    pub v: Value,
}

/// The largest value an unsigned literal of width `k` may hold.
pub open spec fn u_max(k: UIntKind) -> u128 {
    match k {
        UIntKind::U8 => u8::MAX as u128,
        UIntKind::U16 => u16::MAX as u128,
        UIntKind::U32 => u32::MAX as u128,
        UIntKind::U64 => u64::MAX as u128,
        UIntKind::U128 => u128::MAX,
        UIntKind::Usize => usize::MAX as u128,
    }
}

/// The bounds of a signed literal of width `k`.
pub open spec fn s_min(k: SIntKind) -> i128 {
    match k {
        SIntKind::I8 => i8::MIN as i128,
        SIntKind::I16 => i16::MIN as i128,
        SIntKind::I32 => i32::MIN as i128,
        SIntKind::I64 => i64::MIN as i128,
        SIntKind::I128 => i128::MIN,
        SIntKind::Isize => isize::MIN as i128,
    }
}

pub open spec fn s_max(k: SIntKind) -> i128 {
    match k {
        SIntKind::I8 => i8::MAX as i128,
        SIntKind::I16 => i16::MAX as i128,
        SIntKind::I32 => i32::MAX as i128,
        SIntKind::I64 => i64::MAX as i128,
        SIntKind::I128 => i128::MAX,
        SIntKind::Isize => isize::MAX as i128,
    }
}

impl Value {
    /// Well-formedness: every numeric leaf fits its declared width, and a
    /// bounded-nonzero leaf is nonzero by construction.
    pub open spec fn wf(self) -> bool
        decreases self,
    {
        match self {
            Value::Bool { .. } => true,
            Value::UInt { k, v } => v <= u_max(k),
            Value::SInt { k, v } => s_min(k) <= v <= s_max(k),
            Value::Text { .. } => true,
            Value::NoneV => true,
            Value::SomeV { v } => v.wf(),
            Value::Boxed { v } => v.wf(),
            Value::List { items } => forall|i: int|
                0 <= i < items@.len() ==> (#[trigger] items@[i]).wf(),
            Value::MapV { entries } => forall|i: int|
                0 <= i < entries@.len() ==> (#[trigger] entries@[i]).k.wf() && entries@[i].v.wf(),
            Value::SetV { items } => forall|i: int|
                0 <= i < items@.len() ==> (#[trigger] items@[i]).wf(),
            Value::NonZeroU { k, v } => 0 < v <= u_max(k),
            Value::NonZeroI { k, v } => v != 0 && s_min(k) <= v <= s_max(k),
            Value::DateTime { .. } => true,
            Value::Composite { path, fields } => match fields {
                VFields::Named { fields } => forall|i: int|
                    0 <= i < fields@.len() ==> (#[trigger] fields@[i]).v.wf(),
                VFields::Positional { items } => forall|i: int|
                    0 <= i < items@.len() ==> (#[trigger] items@[i]).wf(),
                VFields::Unit => true,
            },
        }
    }
}

/// The generation rules, stated as a relation: `is_gen(v, e)` holds exactly
/// when `e` is the fragment the leaf and composite rules produce for `v`.
/// An empty list, map or set generates the bare empty-constructor form; a
/// non-empty one generates the element-wise form in element order; a
/// composite value generates its constructor form per field arity.
pub open spec fn is_gen(v: Value, e: Expr) -> bool
    decreases v,
{
    match v {
        Value::Bool { b } => e == (Expr::LitBool { b }),
        Value::UInt { k, v } => e == (Expr::LitUInt { k, v }),
        Value::SInt { k, v } => e == (Expr::LitSInt { k, v }),
        Value::Text { s } => e matches Expr::StrFrom { s: t } && t@ == s@,
        Value::NoneV => e is NoneLit,
        Value::SomeV { v: inner } => e matches Expr::SomeOf { e: sub } && is_gen(*inner, *sub),
        Value::Boxed { v: inner } => e matches Expr::BoxNew { e: sub } && is_gen(*inner, *sub),
        Value::List { items } => if items@.len() == 0 {
            e is VecNew
        } else {
            e matches Expr::VecFrom { es } && es@.len() == items@.len() && forall|i: int|
                0 <= i < items@.len() ==> is_gen(#[trigger] items@[i], es@[i])
        },
        Value::MapV { entries } => if entries@.len() == 0 {
            e is MapNew
        } else {
            e matches Expr::MapFrom { entries: es } && es@.len() == entries@.len() && forall|
                i: int,
            |
                0 <= i < entries@.len() ==> is_gen((#[trigger] entries@[i]).k, es@[i].k) && is_gen(
                    entries@[i].v,
                    es@[i].v,
                )
        },
        Value::SetV { items } => if items@.len() == 0 {
            e is SetNew
        } else {
            e matches Expr::SetFrom { es } && es@.len() == items@.len() && forall|i: int|
                0 <= i < items@.len() ==> is_gen(#[trigger] items@[i], es@[i])
        },
        Value::NonZeroU { k, v } => e == (Expr::NonZeroU { k, v }),
        Value::NonZeroI { k, v } => e == (Expr::NonZeroI { k, v }),
        Value::DateTime { secs, nanos } => e == (Expr::DateTimeFrom { secs, nanos }),
        Value::Composite { path, fields } => match fields {
            VFields::Unit => e matches Expr::PathExpr { path: p } && path_eq(p, path),
            VFields::Positional { items } => e matches Expr::CtorCall { path: p, args }
                && path_eq(p, path) && args@.len() == items@.len() && forall|i: int|
                0 <= i < items@.len() ==> is_gen(#[trigger] items@[i], args@[i]),
            VFields::Named { fields } => e matches Expr::CtorNamed { path: p, fields: fs }
                && path_eq(p, path) && fs@.len() == fields@.len() && forall|i: int|
                0 <= i < fields@.len() ==> (#[trigger] fs@[i]).name@ == fields@[i].name@ && is_gen(
                    fields@[i].v,
                    fs@[i].e,
                )
        },
    }
}

/// The single per-type contract: a value produces the literal-construction
/// fragment that its generation rules prescribe.
pub trait Transmogrify {
    /// Which fragments count as this value's generated output.
    spec fn gen_ok(&self, e: Expr) -> bool;

    fn transmogrify(&self) -> (e: Expr)
        ensures
            self.gen_ok(e),
    ;
}

impl Transmogrify for Value {
    open spec fn gen_ok(&self, e: Expr) -> bool {
        is_gen(*self, e)
    }

    fn transmogrify(&self) -> (e: Expr)
        decreases *self, 1int,
    {
        match self {
            Value::Bool { b } => Expr::LitBool { b: *b },
            Value::UInt { k, v } => Expr::LitUInt { k: *k, v: *v },
            Value::SInt { k, v } => Expr::LitSInt { k: *k, v: *v },
            Value::Text { s } => Expr::StrFrom { s: clone_string(s) },
            Value::NoneV => Expr::NoneLit,
            Value::SomeV { v } => {
                proof {
                    assert(decreases_to!(*self => (*self)->SomeV_v));
                }
                Expr::SomeOf { e: Box::new(v.transmogrify()) }
            },
            Value::Boxed { v } => {
                proof {
                    assert(decreases_to!(*self => (*self)->Boxed_v));
                }
                Expr::BoxNew { e: Box::new(v.transmogrify()) }
            },
            Value::List { items } => {
                if items.len() == 0 {
                    Expr::VecNew
                } else {
                    proof {
                        assert(decreases_to!(*self => (*self)->List_items));
                    }
                    Expr::VecFrom { es: gen_items(self, items) }
                }
            },
            Value::SetV { items } => {
                if items.len() == 0 {
                    Expr::SetNew
                } else {
                    proof {
                        assert(decreases_to!(*self => (*self)->SetV_items));
                    }
                    Expr::SetFrom { es: gen_items(self, items) }
                }
            },
            Value::MapV { entries } => {
                if entries.len() == 0 {
                    Expr::MapNew
                } else {
                    let mut es: Vec<Entry> = Vec::new();
                    let mut i: usize = 0;
                    while i < entries.len()
                        invariant
                            *self == (Value::MapV { entries: *entries }),
                            i <= entries@.len(),
                            es@.len() == i,
                            forall|j: int|
                                0 <= j < i ==> is_gen((#[trigger] entries@[j]).k, es@[j].k)
                                    && is_gen(entries@[j].v, es@[j].v),
                        decreases entries@.len() - i,
                    {
                        proof {
                            assert(decreases_to!(*self => (*self)->MapV_entries));
                            assert(decreases_to!(*self => entries@[i as int]));
                            assert(decreases_to!(entries@[i as int] => entries@[i as int].k));
                            assert(decreases_to!(entries@[i as int] => entries@[i as int].v));
                        }
                        es.push(
                            Entry {
                                k: entries[i].k.transmogrify(),
                                v: entries[i].v.transmogrify(),
                            },
                        );
                        i = i + 1;
                    }
                    Expr::MapFrom { entries: es }
                }
            },
            Value::NonZeroU { k, v } => Expr::NonZeroU { k: *k, v: *v },
            Value::NonZeroI { k, v } => Expr::NonZeroI { k: *k, v: *v },
            Value::DateTime { secs, nanos } => Expr::DateTimeFrom { secs: *secs, nanos: *nanos },
            Value::Composite { path, fields } => match fields {
                VFields::Unit => Expr::PathExpr { path: clone_path(path) },
                VFields::Positional { items } => {
                    proof {
                        assert(decreases_to!(*self => (*self)->Composite_fields));
                        assert(decreases_to!(
                            (*self)->Composite_fields => (*self)->Composite_fields->Positional_items));
                        assert(decreases_to!(*self => *items));
                    }
                    Expr::CtorCall { path: clone_path(path), args: gen_items(self, items) }
                },
                VFields::Named { fields: fs } => {
                    let mut inits: Vec<FieldInit> = Vec::new();
                    let mut i: usize = 0;
                    while i < fs.len()
                        invariant
                            *self == (Value::Composite {
                                path: *path,
                                fields: VFields::Named { fields: *fs },
                            }),
                            i <= fs@.len(),
                            inits@.len() == i,
                            forall|j: int|
                                0 <= j < i ==> (#[trigger] inits@[j]).name@ == fs@[j].name@
                                    && is_gen(fs@[j].v, inits@[j].e),
                        decreases fs@.len() - i,
                    {
                        proof {
                            assert(decreases_to!(*self => (*self)->Composite_fields));
                            assert(decreases_to!(
                                (*self)->Composite_fields => (*self)->Composite_fields->Named_fields));
                            assert(decreases_to!(*self => fs@[i as int]));
                            assert(decreases_to!(fs@[i as int] => fs@[i as int].v));
                        }
                        inits.push(
                            FieldInit {
                                name: clone_string(&fs[i].name),
                                e: fs[i].v.transmogrify(),
                            },
                        );
                        i = i + 1;
                    }
                    Expr::CtorNamed { path: clone_path(path), fields: inits }
                },
            },
        }
    }
}

/// Generates one fragment per element of a list- or set-shaped leaf,
/// preserving element order.
fn gen_items(whole: &Value, items: &Vec<Value>) -> (es: Vec<Expr>)
    requires
        decreases_to!(*whole => *items),
    ensures
        es@.len() == items@.len(),
        forall|i: int| 0 <= i < items@.len() ==> is_gen(#[trigger] items@[i], es@[i]),
    decreases *whole, 0int,
{
    let mut es: Vec<Expr> = Vec::new();
    let mut i: usize = 0;
    while i < items.len()
        invariant
            decreases_to!(*whole => *items),
            i <= items@.len(),
            es@.len() == i,
            forall|j: int| 0 <= j < i ==> is_gen(#[trigger] items@[j], es@[j]),
        decreases items@.len() - i,
    {
        proof {
            assert(decreases_to!(*whole => items@[i as int]));
        }
        es.push(items[i].transmogrify());
        i = i + 1;
    }
    es
}

} // verus!
