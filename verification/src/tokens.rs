//! The token model of an annotation's argument list, and the parser for the
//! one recognized configuration option: `prefix = <path>`.

use vstd::prelude::*;

use crate::path::{str_eq, PathSeg, TypePath};
use crate::span::{Diag, Span};

verus! {

/// The kind of one input token.
#[derive(Clone, Copy, Debug, PartialEq, Eq, Structural)]
pub enum TokKind {
    Ident,
    /// A punctuation token; a multi-character operator such as `::` is one
    /// token.
    Punct,
    Lit,
}

/// One token of an annotation's argument list.
#[derive(Debug)]
pub struct Tok {
    pub kind: TokKind,
    pub text: String,
    pub span: Span,
}

pub open spec fn tok_ident(t: Tok) -> bool {
    t.kind is Ident
}

pub open spec fn tok_punct(t: Tok, s: Seq<char>) -> bool {
    t.kind is Punct && t.text@ == s
}

/// From position `i` the tokens read as a path tail: an identifier, then
/// either the end of the list or `::` followed by another path tail.
pub open spec fn path_tail_wf(toks: Seq<Tok>, i: int) -> bool
    decreases toks.len() - i,
{
    if i < 0 || i >= toks.len() {
        false
    } else if !tok_ident(toks[i]) {
        false
    } else if i + 1 == toks.len() {
        true
    } else if tok_punct(toks[i + 1], "::"@) {
        path_tail_wf(toks, i + 2)
    } else {
        false
    }
}

/// The identifiers of the path tail starting at `i`.
pub open spec fn path_tail_segs(toks: Seq<Tok>, i: int) -> Seq<Seq<char>>
    decreases toks.len() - i,
{
    if i < 0 || i >= toks.len() {
        Seq::empty()
    } else if i + 1 >= toks.len() || !tok_punct(toks[i + 1], "::"@) {
        seq![toks[i].text@]
    } else {
        seq![toks[i].text@] + path_tail_segs(toks, i + 2)
    }
}

/// The diagnostic reported for an ill-formed path tail starting at `i`.
pub open spec fn path_tail_err(toks: Seq<Tok>, i: int, list_span: Span) -> (Span, Seq<char>)
    decreases toks.len() - i,
{
    if i < 0 || i >= toks.len() {
        (list_span, "expected identifier"@)
    } else if !tok_ident(toks[i]) {
        (toks[i].span, "expected identifier"@)
    } else if i + 1 == toks.len() {
        (list_span, "expected identifier"@)
    } else if tok_punct(toks[i + 1], "::"@) {
        path_tail_err(toks, i + 2, list_span)
    } else {
        (toks[i + 1].span, "unexpected token"@)
    }
}

/// Where the configured path starts: after `prefix =`, and after one more
/// token when the path is written rooted with a leading `::`.
pub open spec fn prefix_start(toks: Seq<Tok>) -> int {
    if toks.len() > 2 && tok_punct(toks[2], "::"@) {
        3
    } else {
        2
    }
}

/// The whole argument list reads `prefix = <path>` and nothing else.
pub open spec fn prefix_wf(toks: Seq<Tok>) -> bool {
    &&& toks.len() >= 1
    &&& tok_ident(toks[0])
    &&& toks[0].text@ == "prefix"@
    &&& toks.len() >= 2
    &&& tok_punct(toks[1], "="@)
    &&& path_tail_wf(toks, prefix_start(toks))
}

/// Whether the configured path is written rooted.
pub open spec fn prefix_global(toks: Seq<Tok>) -> bool {
    prefix_start(toks) == 3
}

/// The segment identifiers of the configured path.
pub open spec fn prefix_segs(toks: Seq<Tok>) -> Seq<Seq<char>> {
    path_tail_segs(toks, prefix_start(toks))
}

/// The diagnostic reported for an ill-formed argument list.
pub open spec fn prefix_err(toks: Seq<Tok>, list_span: Span) -> (Span, Seq<char>) {
    if toks.len() == 0 {
        (list_span, "expected identifier"@)
    } else if !tok_ident(toks[0]) {
        (toks[0].span, "expected identifier"@)
    } else if toks[0].text@ != "prefix"@ {
        (toks[0].span, "expected `prefix`"@)
    } else if toks.len() < 2 {
        (list_span, "expected `=`"@)
    } else if !tok_punct(toks[1], "="@) {
        (toks[1].span, "expected `=`"@)
    } else {
        path_tail_err(toks, prefix_start(toks), list_span)
    }
}

/// A written path whose segment identifiers are `segs`, with no generic
/// arguments on any segment.
pub open spec fn plain_path_is(p: TypePath, global: bool, segs: Seq<Seq<char>>) -> bool {
    &&& p.global == global
    &&& p.segs@.len() == segs.len()
    &&& forall|i: int|
        0 <= i < segs.len() ==> (#[trigger] p.segs@[i]).ident@ == segs[i] && p.segs@[i].args
            is None
}

/// Parses the path tail that starts at `i`, pushing each identifier.
fn parse_path_tail(toks: &Vec<Tok>, i: usize, list_span: Span, segs: &mut Vec<PathSeg>) -> (r:
    Option<Diag>)
    requires
        i <= toks@.len(),
    ensures
        r is None <==> path_tail_wf(toks@, i as int),
        r is None ==> final(segs)@.len() == old(segs)@.len() + path_tail_segs(
            toks@,
            i as int,
        ).len(),
        r is None ==> forall|j: int|
            0 <= j < old(segs)@.len() ==> final(segs)@[j] == old(segs)@[j],
        r is None ==> forall|j: int|
            old(segs)@.len() <= j < final(segs)@.len() ==> (#[trigger] final(segs)@[j]).ident@
                == path_tail_segs(toks@, i as int)[j - old(segs)@.len()] && final(segs)@[j].args
                is None,
        r matches Some(d) ==> (d.span, d.msg@) == path_tail_err(toks@, i as int, list_span),
    decreases toks@.len() - i,
{
    if i >= toks.len() {
        return Some(Diag::new(list_span, "expected identifier"));
    }
    let t = &toks[i];
    if !(t.kind == TokKind::Ident) {
        return Some(Diag::new(t.span, "expected identifier"));
    }
    if i + 1 == toks.len() {
        segs.push(PathSeg { ident: crate::path::clone_string(&t.text), args: None });
        return None;
    }
    let n = &toks[i + 1];
    if n.kind == TokKind::Punct && str_eq(n.text.as_str(), "::") {
        segs.push(PathSeg { ident: crate::path::clone_string(&t.text), args: None });
        // An ill-formed continuation leaves the collected segments unused:
        // the caller discards them with the error.
        parse_path_tail(toks, i + 2, list_span, segs)
    } else {
        Some(Diag::new(n.span, "unexpected token"))
    }
}

/// Parses the one recognized annotation argument list, `prefix = <path>`,
/// into the configured destination path. Succeeds exactly on well-formed
/// lists; an ill-formed list yields the diagnostic for its first offending
/// token.
pub fn parse_prefix_attr(toks: &Vec<Tok>, list_span: Span) -> (r: Result<TypePath, Diag>)
    ensures
        r is Ok <==> prefix_wf(toks@),
        r matches Ok(p) ==> plain_path_is(p, prefix_global(toks@), prefix_segs(toks@)),
        r matches Err(d) ==> (d.span, d.msg@) == prefix_err(toks@, list_span),
{
    if toks.len() == 0 {
        return Err(Diag::new(list_span, "expected identifier"));
    }
    let t0 = &toks[0];
    if !(t0.kind == TokKind::Ident) {
        return Err(Diag::new(t0.span, "expected identifier"));
    }
    if !str_eq(t0.text.as_str(), "prefix") {
        return Err(Diag::new(t0.span, "expected `prefix`"));
    }
    if toks.len() < 2 {
        return Err(Diag::new(list_span, "expected `=`"));
    }
    let t1 = &toks[1];
    if !(t1.kind == TokKind::Punct && str_eq(t1.text.as_str(), "=")) {
        return Err(Diag::new(t1.span, "expected `=`"));
    }
    let mut start: usize = 2;
    let mut global = false;
    if toks.len() > 2 {
        let t2 = &toks[2];
        if t2.kind == TokKind::Punct && str_eq(t2.text.as_str(), "::") {
            start = 3;
            global = true;
        }
    }
    let mut segs: Vec<PathSeg> = Vec::new();
    let r = parse_path_tail(toks, start, list_span, &mut segs);
    match r {
        None => Ok(TypePath { global, segs, span: list_span }),
        Some(d) => Err(d),
    }
}

} // verus!
