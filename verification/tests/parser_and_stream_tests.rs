//! The annotation parser, spans, and the host-lexer round trip.

use transmogrify::span::Span;
use transmogrify::stream::{normalize_source, source_to_stream, stream_to_string};
use transmogrify::tokens::{parse_prefix_attr, Tok, TokKind};

fn sp(n: u32) -> Span {
    Span { lo: n, hi: n + 1 }
}

fn it(text: &str, n: u32) -> Tok {
    Tok { kind: TokKind::Ident, text: text.to_string(), span: sp(n) }
}

fn pt(text: &str, n: u32) -> Tok {
    Tok { kind: TokKind::Punct, text: text.to_string(), span: sp(n) }
}

#[test]
fn parse_single_segment_prefix() {
    let toks = vec![it("prefix", 1), pt("=", 2), it("foo_crate", 3)];
    let p = parse_prefix_attr(&toks, sp(0)).expect("must parse");
    assert!(!p.global);
    assert_eq!(p.segs.len(), 1);
    assert_eq!(p.segs[0].ident, "foo_crate");
    assert!(p.segs[0].args.is_none());
}

#[test]
fn parse_rooted_multi_segment_prefix() {
    let toks = vec![
        it("prefix", 1),
        pt("=", 2),
        pt("::", 3),
        it("a", 4),
        pt("::", 5),
        it("b", 6),
    ];
    let p = parse_prefix_attr(&toks, sp(0)).expect("must parse");
    assert!(p.global);
    assert_eq!(p.segs.len(), 2);
    assert_eq!(p.segs[0].ident, "a");
    assert_eq!(p.segs[1].ident, "b");
}

#[test]
fn parse_empty_list() {
    let toks: Vec<Tok> = vec![];
    let d = parse_prefix_attr(&toks, sp(9)).expect_err("must fail");
    assert_eq!(d.msg, "expected identifier");
    assert_eq!(d.span, sp(9));
}

#[test]
fn parse_wrong_key() {
    let toks = vec![it("suffix", 1), pt("=", 2), it("x", 3)];
    let d = parse_prefix_attr(&toks, sp(0)).expect_err("must fail");
    assert_eq!(d.msg, "expected `prefix`");
    assert_eq!(d.span, sp(1));
}

#[test]
fn parse_missing_equals() {
    let toks = vec![it("prefix", 1), it("x", 2)];
    let d = parse_prefix_attr(&toks, sp(0)).expect_err("must fail");
    assert_eq!(d.msg, "expected `=`");
    assert_eq!(d.span, sp(2));
}

#[test]
fn parse_missing_path() {
    let toks = vec![it("prefix", 1), pt("=", 2)];
    let d = parse_prefix_attr(&toks, sp(0)).expect_err("must fail");
    assert_eq!(d.msg, "expected identifier");
    assert_eq!(d.span, sp(0));
}

#[test]
fn parse_dangling_separator() {
    let toks = vec![it("prefix", 1), pt("=", 2), it("a", 3), pt("::", 4)];
    let d = parse_prefix_attr(&toks, sp(0)).expect_err("must fail");
    assert_eq!(d.msg, "expected identifier");
    assert_eq!(d.span, sp(0));
}

#[test]
fn parse_trailing_token() {
    let toks = vec![it("prefix", 1), pt("=", 2), it("a", 3), pt(",", 4), it("b", 5)];
    let d = parse_prefix_attr(&toks, sp(0)).expect_err("must fail");
    assert_eq!(d.msg, "unexpected token");
    assert_eq!(d.span, sp(4));
}

#[test]
fn parse_literal_is_not_a_path() {
    let toks = vec![
        it("prefix", 1),
        pt("=", 2),
        Tok { kind: TokKind::Lit, text: "7".to_string(), span: sp(3) },
    ];
    let d = parse_prefix_attr(&toks, sp(0)).expect_err("must fail");
    assert_eq!(d.msg, "expected identifier");
    assert_eq!(d.span, sp(3));
}

#[test]
fn span_join_covers_both() {
    let a = Span { lo: 10, hi: 12 };
    let b = Span { lo: 4, hi: 11 };
    assert_eq!(a.join(b), Span { lo: 4, hi: 12 });
    assert_eq!(b.join(a), Span { lo: 4, hi: 12 });
}

#[test]
fn normalize_collapses_spacing() {
    // The lexer canonicalizes token spacing: the wrapper cannot be handing
    // its input back unchanged.
    let n = normalize_source("x   y").expect("must lex");
    assert_eq!(n, "x y");
    assert_ne!(n, "x   y");
}

#[test]
fn normalize_rejects_unbalanced_input() {
    assert!(normalize_source("( x").is_none());
    assert!(normalize_source("\"open").is_none());
}

#[test]
fn stream_round_trip_is_stable() {
    let t = source_to_stream("foo_crate :: SimpleStruct { foo : # foo , }").expect("must lex");
    let printed = stream_to_string(&t);
    let again = normalize_source(&printed).expect("printed text must lex");
    assert_eq!(printed, again);
}
