//! Compile-time code generation: given the shape of a composite data type, or
//! a hand-written generator skeleton, produce the source text of a
//! literal-construction expression that rebuilds an equivalent value under a
//! caller-chosen namespace prefix.
//!
//! Two producers feed one contract. The declarative generator
//! ([`derive::transmogrify_derive`]) synthesizes a complete generator body
//! from a full type declaration; the template rewriting engine
//! ([`template::transmogrify`]) rewrites a hand-authored skeleton, arm by
//! arm. Both decompose the shape into pattern nodes, recursively compose
//! generation on every sub-component, and assemble one quoted
//! literal-construction template with the type's own path rewritten to the
//! configured destination prefix. The leaf rule library
//! ([`value::Transmogrify`]) is the base case, and its round-trip law is
//! proved in [`eval`].

pub mod derive;
pub mod eval;
pub mod expr;
pub mod genfn;
pub mod numfmt;
pub mod path;
pub mod render;
pub mod span;
pub mod stream;
pub mod template;
pub mod tokens;
pub mod value;
