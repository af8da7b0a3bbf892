//! The template rewriting engine, end to end: a modeled skeleton in, the
//! rewritten implementation block and its diagnostics out.

use transmogrify::path::{PathSeg, SelfTy, TypePath};
use transmogrify::render::render_rewrite_output;
use transmogrify::span::Span;
use transmogrify::stream::normalize_source;
use transmogrify::template::{
    transmogrify, ElemPat, FieldPat, FnSkeleton, ImplItemK, ImplSkeleton, Item, MatchArm, PatKind,
    PatNode, StmtKind,
};

fn sp(n: u32) -> Span {
    Span { lo: n, hi: n + 1 }
}

fn plain_path(segs: &[&str], n: u32) -> TypePath {
    TypePath {
        global: false,
        segs: segs
            .iter()
            .map(|s| PathSeg { ident: s.to_string(), args: None })
            .collect(),
        span: sp(n),
    }
}

fn elem(n: u32) -> ElemPat {
    ElemPat { is_rest: false, span: sp(n) }
}

fn fp(name: &str, n: u32) -> FieldPat {
    FieldPat { name: name.to_string(), span: sp(n) }
}

fn skeleton(header: &str, self_ty: SelfTy, stmt: StmtKind) -> Item {
    Item::Impl {
        imp: ImplSkeleton {
            header: header.to_string(),
            self_ty,
            brace_span: sp(90),
            items: vec![ImplItemK::Fn {
                f: FnSkeleton {
                    sig: "fn transmogrify ( & self ) -> proc_macro2 :: TokenStream".to_string(),
                    block_text: "{ }".to_string(),
                    block_span: sp(91),
                    first_stmt: Some(stmt),
                },
                span: sp(92),
            }],
        },
    }
}

fn norm(s: &str) -> String {
    normalize_source(s).expect("source does not lex")
}

fn rendered(item: &Item) -> String {
    let out = transmogrify(item).expect("rewrite failed");
    match item {
        Item::Impl { imp } => render_rewrite_output(imp, &out),
        Item::OtherItem { .. } => panic!("not an impl"),
    }
}

#[test]
fn test_transmogrify_enum() {
    let item = skeleton(
        "impl Transmogrify for TestEnum",
        SelfTy::Path { path: plain_path(&["TestEnum"], 1) },
        StmtKind::MatchSelf {
            arms: vec![
                MatchArm { pat: PatNode::Path { path: plain_path(&["Self", "A"], 2) } },
                MatchArm {
                    pat: PatNode::TupleStruct {
                        path: plain_path(&["TestEnum", "B"], 3),
                        elems: vec![elem(4), elem(5)],
                        qself: false,
                        has_attrs: false,
                        span: sp(6),
                    },
                },
                MatchArm {
                    pat: PatNode::Struct {
                        path: plain_path(&["TestEnum", "C"], 7),
                        fields: vec![fp("a", 8), fp("b", 9)],
                        rest: false,
                        qself: false,
                        has_attrs: false,
                        span: sp(10),
                    },
                },
            ],
        },
    );
    let text = rendered(&item);
    let expected = "impl Transmogrify for TestEnum { \
        fn transmogrify(&self) -> proc_macro2::TokenStream { \
        match self { \
        Self::A => { quote::quote! { TestEnum::A } } \
        TestEnum::B(value_0, value_1) => { \
            let value_0 = value_0.transmogrify(); \
            let value_1 = value_1.transmogrify(); \
            quote::quote! { TestEnum::B(#value_0, #value_1,) } } \
        TestEnum::C { a, b } => { \
            let a = a.transmogrify(); \
            let b = b.transmogrify(); \
            quote::quote! { TestEnum::C { a: #a, b: #b, } } } \
        } } }";
    assert_eq!(norm(&text), norm(expected));
}

#[test]
fn test_transmogrify_struct() {
    let item = skeleton(
        "impl Transmogrify for TestStruct",
        SelfTy::Path { path: plain_path(&["TestStruct"], 1) },
        StmtKind::LocalBind {
            pat: PatNode::Struct {
                path: plain_path(&["Self"], 2),
                fields: vec![fp("a", 3), fp("b", 4)],
                rest: false,
                qself: false,
                has_attrs: false,
                span: sp(5),
            },
        },
    );
    let text = rendered(&item);
    let expected = "impl Transmogrify for TestStruct { \
        fn transmogrify(&self) -> proc_macro2::TokenStream { \
        let Self { a, b } = self; \
        let a = a.transmogrify(); \
        let b = b.transmogrify(); \
        quote::quote! { TestStruct { a: #a, b: #b, } } } }";
    assert_eq!(norm(&text), norm(expected));
}

#[test]
fn self_path_is_stripped_of_generics() {
    // The implementing type is parameterized: a self-referential arm path
    // must resolve to the bare, generics-stripped name.
    let item = skeleton(
        "impl < T > Transmogrify for Holder < T >",
        SelfTy::Path {
            path: TypePath {
                global: false,
                segs: vec![PathSeg { ident: "Holder".to_string(), args: Some("< T >".to_string()) }],
                span: sp(1),
            },
        },
        StmtKind::MatchSelf {
            arms: vec![MatchArm { pat: PatNode::Path { path: plain_path(&["Self", "Empty"], 2) } }],
        },
    );
    let text = rendered(&item);
    let expected = "impl<T> Transmogrify for Holder<T> { \
        fn transmogrify(&self) -> proc_macro2::TokenStream { \
        match self { Self::Empty => { quote::quote! { Holder::Empty } } } } }";
    assert_eq!(norm(&text), norm(expected));
}

#[test]
fn external_paths_pass_through() {
    // A fully-qualified path with no self-referential head is left untouched.
    let item = skeleton(
        "impl Transmogrify for Color",
        SelfTy::Path { path: plain_path(&["Color"], 1) },
        StmtKind::MatchSelf {
            arms: vec![MatchArm {
                pat: PatNode::Path { path: plain_path(&["other_crate", "Color", "Red"], 2) },
            }],
        },
    );
    let text = rendered(&item);
    assert!(text.contains("quote :: quote ! { other_crate :: Color :: Red } "));
}

#[test]
fn wrong_target_is_fatal() {
    let item = Item::OtherItem { span: sp(44) };
    let err = transmogrify(&item).expect_err("must abort");
    assert_eq!(
        err.msg,
        "#[transmogrify] must be applied to an `impl transmogrify for ... {}` block."
    );
    assert_eq!(err.span, sp(44));
}

#[test]
fn neither_shape_is_fatal() {
    let item = skeleton(
        "impl Transmogrify for T0",
        SelfTy::Path { path: plain_path(&["T0"], 1) },
        StmtKind::OtherStmt { span: sp(2) },
    );
    let err = transmogrify(&item).expect_err("must abort");
    assert!(err.msg.starts_with("#[transmogrify] requires a single statement"));
    assert_eq!(err.span, sp(91));
}

#[test]
fn rest_element_is_fatal() {
    let item = skeleton(
        "impl Transmogrify for T1",
        SelfTy::Path { path: plain_path(&["T1"], 1) },
        StmtKind::MatchSelf {
            arms: vec![MatchArm {
                pat: PatNode::TupleStruct {
                    path: plain_path(&["Self", "V"], 2),
                    elems: vec![elem(3), ElemPat { is_rest: true, span: sp(4) }],
                    qself: false,
                    has_attrs: false,
                    span: sp(5),
                },
            }],
        },
    );
    let err = transmogrify(&item).expect_err("must abort");
    assert_eq!(err.msg, "rest patterns are not supported; each element must be a plain binding");
    assert_eq!(err.span, sp(4));
}

#[test]
fn unsupported_pattern_kind_is_fatal() {
    let item = skeleton(
        "impl Transmogrify for T2",
        SelfTy::Path { path: plain_path(&["T2"], 1) },
        StmtKind::MatchSelf {
            arms: vec![MatchArm { pat: PatNode::Other { kind: PatKind::Wild, span: sp(2) } }],
        },
    );
    let err = transmogrify(&item).expect_err("must abort");
    assert_eq!(err.msg, "unsupported pattern in a transmogrify match arm");
    assert_eq!(err.span, sp(2));
}

#[test]
fn unexpected_binding_is_soft() {
    let item = skeleton(
        "impl Transmogrify for T3",
        SelfTy::Path { path: plain_path(&["T3"], 1) },
        StmtKind::LocalBind { pat: PatNode::Other { kind: PatKind::Ident, span: sp(2) } },
    );
    let out = transmogrify(&item).expect("soft error only");
    assert!(out.rewritten.is_none());
    assert!(!out.stubbed);
    assert_eq!(out.errors.len(), 1);
    assert_eq!(out.errors[0].msg, "transmogrify! expected `Self { /* all members */ }");
    assert_eq!(out.errors[0].span, sp(2));
    // The skeleton is emitted as written, with the diagnostic after it.
    let text = match &item {
        Item::Impl { imp } => render_rewrite_output(imp, &out),
        _ => unreachable!(),
    };
    assert!(text.contains(":: core :: compile_error ! { "));
}

#[test]
fn extraneous_items_are_flagged_once() {
    let item = Item::Impl {
        imp: ImplSkeleton {
            header: "impl Transmogrify for T4".to_string(),
            self_ty: SelfTy::Path { path: plain_path(&["T4"], 1) },
            brace_span: sp(80),
            items: vec![
                ImplItemK::Fn {
                    f: FnSkeleton {
                        sig: "fn transmogrify ( & self ) -> proc_macro2 :: TokenStream"
                            .to_string(),
                        block_text: "{ }".to_string(),
                        block_span: sp(81),
                        first_stmt: Some(StmtKind::MatchSelf {
                            arms: vec![MatchArm {
                                pat: PatNode::Path { path: plain_path(&["Self", "A"], 2) },
                            }],
                        }),
                    },
                    span: sp(82),
                },
                ImplItemK::OtherItem { text: "fn extra ( ) { }".to_string(), span: sp(83) },
                ImplItemK::OtherItem { text: "fn extra2 ( ) { }".to_string(), span: sp(85) },
            ],
        },
    };
    let out = transmogrify(&item).expect("rewrite failed");
    // One combined diagnostic over the joined span of everything past the
    // first item.
    assert_eq!(out.errors.len(), 1);
    assert_eq!(out.errors[0].span, Span { lo: 83, hi: 86 });
    assert!(out.errors[0].msg.starts_with("expected a single item of the form"));
    // The extraneous items are still emitted, as written.
    let text = match &item {
        Item::Impl { imp } => render_rewrite_output(imp, &out),
        _ => unreachable!(),
    };
    assert!(text.contains("fn extra ( ) { }"));
    assert!(text.contains("fn extra2 ( ) { }"));
}

#[test]
fn missing_function_is_stubbed() {
    let item = Item::Impl {
        imp: ImplSkeleton {
            header: "impl Transmogrify for T5".to_string(),
            self_ty: SelfTy::Path { path: plain_path(&["T5"], 1) },
            brace_span: sp(70),
            items: vec![],
        },
    };
    let out = transmogrify(&item).expect("rewrite failed");
    assert!(out.rewritten.is_none());
    assert!(out.stubbed);
    assert_eq!(out.errors.len(), 1);
    assert_eq!(out.errors[0].span, sp(70));
    let text = match &item {
        Item::Impl { imp } => render_rewrite_output(imp, &out),
        _ => unreachable!(),
    };
    // A placeholder implementation is appended so the block still compiles.
    assert!(text.contains("fn transmogrify ( & self ) -> proc_macro2 :: TokenStream { panic ! ( ) } "));
}

#[test]
fn opaque_self_type_passes_through() {
    let item = skeleton(
        "impl Transmogrify for [ u8 ; 4 ]",
        SelfTy::Opaque { text: "[ u8 ; 4 ]".to_string() },
        StmtKind::LocalBind {
            pat: PatNode::Struct {
                path: plain_path(&["Self"], 2),
                fields: vec![fp("x", 3)],
                rest: false,
                qself: false,
                has_attrs: false,
                span: sp(4),
            },
        },
    );
    let text = rendered(&item);
    assert!(text.contains("quote :: quote ! { [ u8 ; 4 ] { x : # x , } } "));
}

#[test]
fn json_value_skeleton() {
    // A six-variant skeleton over an external value type: one unit arm and
    // five one-element tuple arms, every path fully qualified.
    let arms = vec![
        MatchArm { pat: PatNode::Path { path: plain_path(&["serde_json", "Value", "Null"], 2) } },
        MatchArm {
            pat: PatNode::TupleStruct {
                path: plain_path(&["serde_json", "Value", "Bool"], 3),
                elems: vec![elem(4)],
                qself: false,
                has_attrs: false,
                span: sp(5),
            },
        },
        MatchArm {
            pat: PatNode::TupleStruct {
                path: plain_path(&["serde_json", "Value", "String"], 6),
                elems: vec![elem(7)],
                qself: false,
                has_attrs: false,
                span: sp(8),
            },
        },
    ];
    let item = skeleton(
        "impl Transmogrify for serde_json :: Value",
        SelfTy::Path { path: plain_path(&["serde_json", "Value"], 1) },
        StmtKind::MatchSelf { arms },
    );
    let text = rendered(&item);
    assert!(text.contains("serde_json :: Value :: Null => { quote :: quote ! { serde_json :: Value :: Null } } "));
    assert!(text.contains(
        "serde_json :: Value :: Bool ( value_0 ) => { \
         let value_0 = value_0 . transmogrify ( ) ; \
         quote :: quote ! { serde_json :: Value :: Bool ( # value_0 , ) } } "
    ));
}
