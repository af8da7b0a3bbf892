//! The generated fragment: a literal-construction expression.
//!
//! The engine's sole output is an expression that, compiled elsewhere,
//! rebuilds a value. Constructor forms ([`Expr::CtorCall`], [`Expr::CtorNamed`],
//! [`Expr::PathExpr`]) carry a resolved path; the leaf forms mirror the fixed
//! generation rules for primitives and standard containers; [`Expr::Splice`]
//! is an interpolation marker, standing for a sub-fragment bound to a local
//! name by the enclosing generator body.

use vstd::prelude::*;

use crate::path::Path;

verus! {

/// The width of an unsigned literal, fixing its rendered suffix.
#[derive(Clone, Copy, Debug, PartialEq, Eq, Structural)]
pub enum UIntKind {
    U8,
    U16,
    U32,
    U64,
    U128,
    Usize,
}

/// The width of a signed literal, fixing its rendered suffix.
#[derive(Clone, Copy, Debug, PartialEq, Eq, Structural)]
pub enum SIntKind {
    I8,
    I16,
    I32,
    I64,
    I128,
    Isize,
}

/// A literal-construction expression.
#[derive(Debug)]
pub enum Expr {
    /// A bare constructor path: a unit struct or unit variant.
    PathExpr { path: Path },
    /// A positional constructor call `path ( e0 , e1 , )`; with no arguments,
    /// the bare-call form `path ( )`.
    CtorCall { path: Path, args: Vec<Expr> },
    /// A named-field constructor `path { f0 : e0 , }`.
    CtorNamed { path: Path, fields: Vec<FieldInit> },
    /// An interpolation marker `# name` inside a quoted template.
    Splice { name: String },
    /// `true` or `false`.
    LitBool { b: bool },
    /// An unsigned literal with its width suffix, `32u32`.
    LitUInt { k: UIntKind, v: u128 },
    /// A signed literal with its width suffix, `-7i64`.
    LitSInt { k: SIntKind, v: i128 },
    /// `String :: from ( "…" )`.
    StrFrom { s: String },
    /// `Some ( e )`.
    SomeOf { e: Box<Expr> },
    /// `None`.
    NoneLit,
    /// `Box :: new ( e )`.
    BoxNew { e: Box<Expr> },
    /// The bare empty-list constructor.
    VecNew,
    /// An element-wise list literal, in element order.
    VecFrom { es: Vec<Expr> },
    /// The bare empty-map constructor.
    MapNew,
    /// An entry-wise map literal of key/value pair tuples, in entry order.
    MapFrom { entries: Vec<Entry> },
    /// The bare empty-set constructor.
    SetNew,
    /// An element-wise set literal, in element order.
    SetFrom { es: Vec<Expr> },
    /// A bounded-nonzero constructor over the raw unsigned value, with an
    /// unwrap-style assertion that it is nonzero.
    NonZeroU { k: UIntKind, v: u128 },
    /// The signed counterpart of `NonZeroU`.
    NonZeroI { k: SIntKind, v: i128 },
    /// A timestamp constructor from whole seconds and subsecond nanoseconds,
    /// with an unwrap-style assertion that they are in range.
    DateTimeFrom { secs: i64, nanos: u32 },
}

/// One named-field initializer inside a `CtorNamed`.
#[derive(Debug)]
pub struct FieldInit {
    pub name: String,
    pub e: Expr,
}

/// One key/value pair inside a `MapFrom`.
#[derive(Debug)]
pub struct Entry {
    pub k: Expr,
    pub v: Expr,
}

} // verus!
