//! The declarative generator, end to end: a modeled type declaration in, the
//! rendered generator implementation and its diagnostics out.

use transmogrify::derive::{
    transmogrify_derive, Attr, Data, FieldDecl, FieldsDecl, Generics, MetaShape, TypeDecl, Variant,
};
use transmogrify::render::render_derive_output;
use transmogrify::span::Span;
use transmogrify::stream::normalize_source;
use transmogrify::tokens::{Tok, TokKind};

fn sp(n: u32) -> Span {
    Span { lo: n, hi: n + 1 }
}

fn ident_tok(text: &str, n: u32) -> Tok {
    Tok { kind: TokKind::Ident, text: text.to_string(), span: sp(n) }
}

fn punct_tok(text: &str, n: u32) -> Tok {
    Tok { kind: TokKind::Punct, text: text.to_string(), span: sp(n) }
}

fn prefix_attr(name: &str) -> Attr {
    Attr {
        span: sp(1),
        path: vec!["transmogrify".to_string()],
        shape: MetaShape::List {
            tokens: vec![ident_tok("prefix", 2), punct_tok("=", 3), ident_tok(name, 4)],
            tokens_span: sp(5),
        },
    }
}

fn no_generics() -> Generics {
    Generics {
        impl_generics: String::new(),
        ty_generics: String::new(),
        where_clause: String::new(),
    }
}

fn pub_field(name: &str, n: u32) -> FieldDecl {
    FieldDecl { name: name.to_string(), is_public: true, span: sp(n) }
}

fn decl(name: &str, attrs: Vec<Attr>, data: Data) -> TypeDecl {
    TypeDecl {
        span: sp(0),
        is_public: true,
        name: name.to_string(),
        generics: no_generics(),
        attrs,
        data,
    }
}

fn norm(s: &str) -> String {
    normalize_source(s).expect("source does not lex")
}

#[test]
fn test_simple_struct() {
    let d = decl(
        "SimpleStruct",
        vec![prefix_attr("foo_crate")],
        Data::Struct { fields: FieldsDecl::Named { fields: vec![pub_field("foo", 10)] } },
    );
    let out = transmogrify_derive(&d).expect("derive failed");
    assert!(out.errors.is_empty());
    let text = render_derive_output(&out);
    let expected = "impl ::transmogrify::Transmogrify for SimpleStruct { \
        fn transmogrify(&self) -> proc_macro2::TokenStream { \
        let foo = ::transmogrify::Transmogrify::transmogrify(&self.foo); \
        quote::quote! { foo_crate::SimpleStruct { foo: #foo, } } } }";
    assert_eq!(norm(&text), norm(expected));
}

#[test]
fn test_tuple_struct() {
    let d = decl(
        "TupleStruct",
        vec![prefix_attr("foo_crate")],
        Data::Struct { fields: FieldsDecl::Unnamed { fields: vec![pub_field("", 10)] } },
    );
    let out = transmogrify_derive(&d).expect("derive failed");
    assert!(out.errors.is_empty());
    let text = render_derive_output(&out);
    let expected = "impl ::transmogrify::Transmogrify for TupleStruct { \
        fn transmogrify(&self) -> proc_macro2::TokenStream { \
        let value_0 = ::transmogrify::Transmogrify::transmogrify(&self.0); \
        quote::quote! { foo_crate::TupleStruct(#value_0,) } } }";
    assert_eq!(norm(&text), norm(expected));
}

#[test]
fn test_empty_struct() {
    let d = decl(
        "EmptyStruct",
        vec![prefix_attr("foo_crate")],
        Data::Struct { fields: FieldsDecl::Named { fields: vec![] } },
    );
    let out = transmogrify_derive(&d).expect("derive failed");
    assert!(out.errors.is_empty());
    let text = render_derive_output(&out);
    let expected = "impl ::transmogrify::Transmogrify for EmptyStruct { \
        fn transmogrify(&self) -> proc_macro2::TokenStream { \
        quote::quote! { foo_crate::EmptyStruct {} } } }";
    assert_eq!(norm(&text), norm(expected));
}

#[test]
fn test_empty_struct_tuple() {
    let d = decl(
        "EmptyStructTuple",
        vec![prefix_attr("foo_crate")],
        Data::Struct { fields: FieldsDecl::Unnamed { fields: vec![] } },
    );
    let out = transmogrify_derive(&d).expect("derive failed");
    assert!(out.errors.is_empty());
    let text = render_derive_output(&out);
    let expected = "impl ::transmogrify::Transmogrify for EmptyStructTuple { \
        fn transmogrify(&self) -> proc_macro2::TokenStream { \
        quote::quote! { foo_crate::EmptyStructTuple() } } }";
    assert_eq!(norm(&text), norm(expected));
}

#[test]
fn test_marker_struct() {
    let d = decl(
        "MarkerStruct",
        vec![prefix_attr("foo_crate")],
        Data::Struct { fields: FieldsDecl::Unit },
    );
    let out = transmogrify_derive(&d).expect("derive failed");
    assert!(out.errors.is_empty());
    let text = render_derive_output(&out);
    let expected = "impl ::transmogrify::Transmogrify for MarkerStruct { \
        fn transmogrify(&self) -> proc_macro2::TokenStream { \
        quote::quote! { foo_crate::MarkerStruct } } }";
    assert_eq!(norm(&text), norm(expected));
}

#[test]
fn test_simple_enum() {
    let d = decl(
        "SimpleEnum",
        vec![prefix_attr("foo_crate")],
        Data::Enum {
            variants: vec![
                Variant { name: "A".to_string(), fields: FieldsDecl::Unit },
                Variant { name: "B".to_string(), fields: FieldsDecl::Unnamed { fields: vec![] } },
                Variant {
                    name: "C".to_string(),
                    fields: FieldsDecl::Unnamed { fields: vec![pub_field("", 20)] },
                },
                Variant {
                    name: "D".to_string(),
                    fields: FieldsDecl::Named { fields: vec![pub_field("foo", 21)] },
                },
            ],
        },
    );
    let out = transmogrify_derive(&d).expect("derive failed");
    assert!(out.errors.is_empty());
    let text = render_derive_output(&out);
    let expected = "impl ::transmogrify::Transmogrify for SimpleEnum { \
        fn transmogrify(&self) -> proc_macro2::TokenStream { \
        match self { \
        Self::A => { quote::quote! { foo_crate::SimpleEnum::A } } \
        Self::B() => { quote::quote! { foo_crate::SimpleEnum::B() } } \
        Self::C(x0,) => { \
            let x0 = ::transmogrify::Transmogrify::transmogrify(x0); \
            quote::quote! { foo_crate::SimpleEnum::C(#x0,) } } \
        Self::D { foo, } => { \
            let foo = ::transmogrify::Transmogrify::transmogrify(foo); \
            quote::quote! { foo_crate::SimpleEnum::D { foo: #foo, } } } \
        } } }";
    assert_eq!(norm(&text), norm(expected));
}

#[test]
fn test_error_no_attr() {
    let d = decl("ErrorNoAttr", vec![], Data::Struct {
        fields: FieldsDecl::Named { fields: vec![] },
    });
    let out = transmogrify_derive(&d).expect("derive failed");
    // Missing configuration: exactly the one diagnostic, at the whole
    // declaration, and a best-effort implementation is still produced.
    assert_eq!(out.errors.len(), 1);
    assert_eq!(
        out.errors[0].msg,
        "must specify a path prefix #[transmogrify(prefix = <path>)]"
    );
    assert_eq!(out.errors[0].span, sp(0));
    let text = render_derive_output(&out);
    let expected = "::core::compile_error! { \
        \"must specify a path prefix #[transmogrify(prefix = <path>)]\" } \
        impl ::transmogrify::Transmogrify for ErrorNoAttr { \
        fn transmogrify(&self) -> proc_macro2::TokenStream { \
        quote::quote! { ::ErrorNoAttr {} } } }";
    assert_eq!(norm(&text), norm(expected));
}

#[test]
fn non_public_type_and_field_diagnostics() {
    let mut d = decl(
        "Hidden",
        vec![prefix_attr("dest")],
        Data::Struct {
            fields: FieldsDecl::Named {
                fields: vec![
                    pub_field("ok", 30),
                    FieldDecl { name: "secret".to_string(), is_public: false, span: sp(31) },
                ],
            },
        },
    );
    d.is_public = false;
    let out = transmogrify_derive(&d).expect("derive failed");
    assert_eq!(out.errors.len(), 2);
    assert_eq!(
        out.errors[0].msg,
        "the type must be pub for consumers to use Transmogrify output"
    );
    assert_eq!(out.errors[0].span, sp(0));
    // Diagnostic locality: the field error points at the field's own span,
    // not at the declaration.
    assert_eq!(out.errors[1].msg, "struct fields must be pub");
    assert_eq!(out.errors[1].span, sp(31));
}

#[test]
fn malformed_attribute_shapes() {
    // A bare marker annotation.
    let bare = Attr {
        span: sp(7),
        path: vec!["transmogrify".to_string()],
        shape: MetaShape::Bare,
    };
    let d = decl("T0", vec![bare], Data::Struct { fields: FieldsDecl::Unit });
    let out = transmogrify_derive(&d).expect("derive failed");
    assert_eq!(out.errors.len(), 1);
    assert_eq!(out.errors[0].msg, "must be of the form #[transmogrify(prefix = <path>)]");
    assert_eq!(out.errors[0].span, sp(7));

    // A wrong key inside the list.
    let wrong_key = Attr {
        span: sp(8),
        path: vec!["transmogrify".to_string()],
        shape: MetaShape::List {
            tokens: vec![ident_tok("suffix", 9), punct_tok("=", 10), ident_tok("x", 11)],
            tokens_span: sp(12),
        },
    };
    let d = decl("T1", vec![wrong_key], Data::Struct { fields: FieldsDecl::Unit });
    let out = transmogrify_derive(&d).expect("derive failed");
    assert_eq!(out.errors.len(), 1);
    assert_eq!(out.errors[0].msg, "expected `prefix`");
    assert_eq!(out.errors[0].span, sp(9));

    // A trailing token after the path.
    let trailing = Attr {
        span: sp(13),
        path: vec!["transmogrify".to_string()],
        shape: MetaShape::List {
            tokens: vec![
                ident_tok("prefix", 14),
                punct_tok("=", 15),
                ident_tok("x", 16),
                punct_tok(",", 17),
            ],
            tokens_span: sp(18),
        },
    };
    let d = decl("T2", vec![trailing], Data::Struct { fields: FieldsDecl::Unit });
    let out = transmogrify_derive(&d).expect("derive failed");
    assert_eq!(out.errors.len(), 1);
    assert_eq!(out.errors[0].msg, "unexpected token");
    assert_eq!(out.errors[0].span, sp(17));
}

#[test]
fn last_wellformed_prefix_wins() {
    let d = decl(
        "Twice",
        vec![prefix_attr("first_dest"), prefix_attr("second_dest")],
        Data::Struct { fields: FieldsDecl::Unit },
    );
    let out = transmogrify_derive(&d).expect("derive failed");
    assert!(out.errors.is_empty());
    let text = render_derive_output(&out);
    assert!(text.contains("second_dest :: Twice "));
}

#[test]
fn multi_segment_prefix() {
    let attr = Attr {
        span: sp(1),
        path: vec!["transmogrify".to_string()],
        shape: MetaShape::List {
            tokens: vec![
                ident_tok("prefix", 2),
                punct_tok("=", 3),
                ident_tok("a", 4),
                punct_tok("::", 5),
                ident_tok("b", 6),
            ],
            tokens_span: sp(7),
        },
    };
    let d = decl("Deep", vec![attr], Data::Struct { fields: FieldsDecl::Unit });
    let out = transmogrify_derive(&d).expect("derive failed");
    assert!(out.errors.is_empty());
    let text = render_derive_output(&out);
    assert!(text.contains("a :: b :: Deep "));
}

#[test]
fn union_is_fatal() {
    let d = decl("U", vec![prefix_attr("dest")], Data::Union);
    let err = transmogrify_derive(&d).expect_err("union must abort");
    assert_eq!(err.msg, "Transmogrify my not be derived from unions");
    assert_eq!(err.span, sp(0));
}

#[test]
fn generics_propagated_unchanged() {
    let mut d = decl(
        "Wrap",
        vec![prefix_attr("dest")],
        Data::Struct { fields: FieldsDecl::Named { fields: vec![pub_field("inner", 40)] } },
    );
    d.generics = Generics {
        impl_generics: "< T : Clone >".to_string(),
        ty_generics: "< T >".to_string(),
        where_clause: "where T : Default".to_string(),
    };
    let out = transmogrify_derive(&d).expect("derive failed");
    assert_eq!(out.generics.impl_generics, "< T : Clone >");
    assert_eq!(out.generics.ty_generics, "< T >");
    assert_eq!(out.generics.where_clause, "where T : Default");
    let text = render_derive_output(&out);
    let expected = "impl<T: Clone> ::transmogrify::Transmogrify for Wrap<T> where T: Default { \
        fn transmogrify(&self) -> proc_macro2::TokenStream { \
        let inner = ::transmogrify::Transmogrify::transmogrify(&self.inner); \
        quote::quote! { dest::Wrap { inner: #inner, } } } }";
    assert_eq!(norm(&text), norm(expected));
}
