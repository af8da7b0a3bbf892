//! The leaf rule library on concrete values: every generated fragment is
//! rendered and held against the exact expected literal-construction text.

use transmogrify::expr::{SIntKind, UIntKind};
use transmogrify::path::Path;
use transmogrify::render::write_expr;
use transmogrify::stream::normalize_source;
use transmogrify::value::{NamedV, Transmogrify, VEntry, VFields, Value};

fn path(segs: &[&str]) -> Path {
    Path { global: false, segs: segs.iter().map(|s| s.to_string()).collect() }
}

fn u32v(v: u128) -> Value {
    Value::UInt { k: UIntKind::U32, v }
}

fn text(v: &Value) -> String {
    let mut out = String::new();
    write_expr(&mut out, &v.transmogrify());
    out
}

fn norm(s: &str) -> String {
    normalize_source(s).expect("source does not lex")
}

#[test]
fn test_generated_transmogrify() {
    // A unit variant generates its bare path.
    let value = Value::Composite { path: path(&["TestEnum", "A"]), fields: VFields::Unit };
    assert_eq!(norm(&text(&value)), norm("TestEnum::A"));

    // A tuple variant generates one sub-fragment per field, in order.
    let value = Value::Composite {
        path: path(&["TestEnum", "B"]),
        fields: VFields::Positional {
            items: vec![u32v(32), Value::Text { s: "s".to_string() }],
        },
    };
    assert_eq!(norm(&text(&value)), norm("TestEnum::B(32u32, String::from(\"s\"),)"));

    // A named variant generates named-field syntax.
    let value = Value::Composite {
        path: path(&["TestEnum", "C"]),
        fields: VFields::Named {
            fields: vec![NamedV { name: "value".to_string(), v: u32v(42) }],
        },
    };
    assert_eq!(norm(&text(&value)), norm("TestEnum::C { value: 42u32, }"));

    // A named struct value, field for field.
    let value = Value::Composite {
        path: path(&["TestStruct"]),
        fields: VFields::Named {
            fields: vec![
                NamedV { name: "a".to_string(), v: u32v(100) },
                NamedV { name: "b".to_string(), v: Value::Text { s: "b".to_string() } },
            ],
        },
    };
    assert_eq!(norm(&text(&value)), norm("TestStruct { a: 100u32, b: String::from(\"b\"), }"));
}

#[test]
fn option_rules() {
    let absent = Value::NoneV;
    assert_eq!(text(&absent), "None ");
    let present = Value::SomeV { v: Box::new(Value::Bool { b: true }) };
    assert_eq!(text(&present), "Some ( true ) ");
}

#[test]
fn box_rule() {
    let v = Value::Boxed { v: Box::new(u32v(7)) };
    assert_eq!(text(&v), "Box :: new ( 7u32 ) ");
}

#[test]
fn empty_collections_use_bare_constructors() {
    assert_eq!(text(&Value::List { items: vec![] }), "< std :: vec :: Vec < _ > > :: new ( ) ");
    assert_eq!(
        text(&Value::MapV { entries: vec![] }),
        "< std :: collections :: BTreeMap < _ , _ > > :: new ( ) "
    );
    assert_eq!(
        text(&Value::SetV { items: vec![] }),
        "< std :: collections :: BTreeSet < _ , _ > > :: new ( ) "
    );
}

#[test]
fn list_order_is_preserved() {
    let v = Value::List { items: vec![u32v(1), u32v(2), u32v(3)] };
    assert_eq!(
        text(&v),
        "< std :: vec :: Vec < _ > > :: from ( [ 1u32 , 2u32 , 3u32 , ] ) "
    );
}

#[test]
fn map_order_is_preserved() {
    let v = Value::MapV {
        entries: vec![
            VEntry { k: Value::Text { s: "k1".to_string() }, v: u32v(1) },
            VEntry { k: Value::Text { s: "k2".to_string() }, v: u32v(2) },
        ],
    };
    assert_eq!(
        text(&v),
        "< std :: collections :: BTreeMap < _ , _ > > :: from ( [ \
         ( String :: from ( \"k1\" ) , 1u32 ) , \
         ( String :: from ( \"k2\" ) , 2u32 ) , ] ) "
    );
}

#[test]
fn set_rule() {
    let v = Value::SetV { items: vec![u32v(9), u32v(4)] };
    assert_eq!(
        text(&v),
        "< std :: collections :: BTreeSet < _ , _ > > :: from ( [ 9u32 , 4u32 , ] ) "
    );
}

#[test]
fn string_escaping() {
    let v = Value::Text { s: "a\"b\\c\nd".to_string() };
    assert_eq!(text(&v), "String :: from ( \"a\\\"b\\\\c\\nd\" ) ");
    // The escaped literal lexes back.
    assert!(normalize_source(&text(&v)).is_some());
}

#[test]
fn integer_literals_carry_their_suffix() {
    assert_eq!(text(&Value::UInt { k: UIntKind::U8, v: 255 }), "255u8 ");
    assert_eq!(text(&Value::UInt { k: UIntKind::U64, v: 0 }), "0u64 ");
    assert_eq!(text(&Value::SInt { k: SIntKind::I64, v: -42 }), "-42i64 ");
    assert_eq!(text(&Value::SInt { k: SIntKind::I8, v: 17 }), "17i8 ");
    assert_eq!(text(&Value::Bool { b: false }), "false ");
}

#[test]
fn nonzero_rules() {
    let v = Value::NonZeroU { k: UIntKind::U32, v: 7 };
    assert_eq!(text(&v), "std :: num :: NonZeroU32 :: new ( 7u32 ) . unwrap ( ) ");
    let v = Value::NonZeroI { k: SIntKind::I16, v: -3 };
    assert_eq!(text(&v), "std :: num :: NonZeroI16 :: new ( -3i16 ) . unwrap ( ) ");
}

#[test]
fn datetime_rule() {
    let v = Value::DateTime { secs: 5, nanos: 3 };
    assert_eq!(
        text(&v),
        "chrono :: DateTime :: < chrono :: Utc > :: from_timestamp ( 5i64 , 3u32 ) . unwrap ( ) "
    );
}

#[test]
fn nested_round_trip_shape() {
    // A nested composite renders inside out, mirroring recursive generation.
    let v = Value::Composite {
        path: path(&["Outer"]),
        fields: VFields::Named {
            fields: vec![NamedV {
                name: "inner".to_string(),
                v: Value::SomeV {
                    v: Box::new(Value::List { items: vec![u32v(1)] }),
                },
            }],
        },
    };
    assert_eq!(
        norm(&text(&v)),
        norm("Outer { inner: Some(< std::vec::Vec<_> > ::from([1u32,])), }")
    );
}

#[test]
fn zero_field_composites() {
    let bare_call = Value::Composite {
        path: path(&["P", "T"]),
        fields: VFields::Positional { items: vec![] },
    };
    assert_eq!(text(&bare_call), "P :: T ( ) ");
    let unit = Value::Composite { path: path(&["P", "U"]), fields: VFields::Unit };
    assert_eq!(text(&unit), "P :: U ");
    let empty_named = Value::Composite {
        path: path(&["P", "N"]),
        fields: VFields::Named { fields: vec![] },
    };
    assert_eq!(text(&empty_named), "P :: N { } ");
}
