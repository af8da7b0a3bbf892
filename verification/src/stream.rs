//! Real token streams, through the host lexer.
//!
//! The engine's own output is verified source text; these functions turn that
//! text into a real token stream and back, so callers can hand the generated
//! fragment to anything that consumes token streams.

use vstd::prelude::*;

verus! {

/// An abstract stream of tokens, produced and printed by the host lexer.
#[verifier::external_type_specification]
#[verifier::external_body]
pub struct ExTokenStream(proc_macro2::TokenStream);

/// What a token stream holds, as its display text.
pub uninterp spec fn stream_text(t: proc_macro2::TokenStream) -> Seq<char>;

/// The display text of the stream lexed from `s`, when `s` lexes.
pub uninterp spec fn lexed(s: Seq<char>) -> Option<Seq<char>>;

/// Relies on `FromStr` for `proc_macro2::TokenStream`: outside a
/// compiler-provided macro context its fallback lexer is a pure function of
/// the input text, returning a lexing error — not panicking — on text that
/// does not lex.
#[verifier::external_body]
fn lex_tokens(s: &str) -> (r: Option<proc_macro2::TokenStream>)
    ensures
        r is Some <==> lexed(s@) is Some,
        r matches Some(t) ==> lexed(s@) == Some(stream_text(t)),
{
    match s.parse::<proc_macro2::TokenStream>() {
        Ok(t) => Some(t),
        Err(_) => None,
    }
}

/// Relies on `Display` for `proc_macro2::TokenStream`: the printed text is a
/// function of the stream's token data alone.
#[verifier::external_body]
fn stream_display(t: &proc_macro2::TokenStream) -> (r: String)
    ensures
        r@ == stream_text(*t),
{
    t.to_string()
}

/// Lexes rendered source text into a real token stream; `None` exactly when
/// the text does not lex.
pub fn source_to_stream(s: &str) -> (r: Option<proc_macro2::TokenStream>)
    ensures
        r is Some <==> lexed(s@) is Some,
        r matches Some(t) ==> lexed(s@) == Some(stream_text(t)),
{
    lex_tokens(s)
}

/// The display text of a real token stream.
pub fn stream_to_string(t: &proc_macro2::TokenStream) -> (r: String)
    ensures
        r@ == stream_text(*t),
{
    stream_display(t)
}

/// The canonical display text of source text: what it lexes to, printed back.
/// Two texts that lex to the same tokens normalize to the same string.
pub fn normalize_source(s: &str) -> (r: Option<String>)
    ensures
        r is Some <==> lexed(s@) is Some,
        r matches Some(x) ==> lexed(s@) == Some(x@),
{
    match lex_tokens(s) {
        Some(t) => Some(stream_display(&t)),
        None => None,
    }
}

} // verus!
