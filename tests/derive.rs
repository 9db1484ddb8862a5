use primitive_enum::attr::get_primitive_name;
use primitive_enum::codec::derive_from_u8;
use primitive_enum::decl::{is_simple, Attr, Body, Decl, DeriveError, Shape, Token, Variant};
use primitive_enum::pattern::{variant_pattern, Field, Payload, Value};
use primitive_enum::projection::derive_primitive_from_enum;
use primitive_enum::runtime::EnumFromU8Error;

fn variant(name: &str, shape: Shape) -> Variant {
    Variant { name: name.to_string(), shape, discriminant: false }
}

fn primitive_attr(args: Option<Vec<Token>>) -> Attr {
    Attr { path: vec!["primitive".to_string()], args }
}

fn ident(name: &str) -> Token {
    Token::Ident(name.to_string())
}

fn decl(name: &str, attrs: Vec<Attr>, variants: Vec<Variant>) -> Decl {
    Decl { name: name.to_string(), attrs, body: Body::Enum(variants) }
}

fn value(variant: &str, payload: Payload) -> Value {
    Value { variant: variant.to_string(), payload }
}

fn abc() -> Decl {
    decl(
        "P",
        vec![],
        vec![variant("A", Shape::Unit), variant("B", Shape::Unit), variant("C", Shape::Unit)],
    )
}

#[test]
fn projection_over_mixed_shapes() {
    let k = decl(
        "K",
        vec![primitive_attr(Some(vec![ident("P")]))],
        vec![
            variant("A", Shape::Unnamed(1)),
            variant("B", Shape::Unnamed(1)),
            variant("C", Shape::Unit),
        ],
    );
    let p = derive_primitive_from_enum(&k).unwrap();
    assert_eq!(p.primitive_name(), "P");
    assert_eq!(p.owner, "K");
    assert_eq!(p.arms.len(), 3);
    let a = value("A", Payload::Unnamed(vec!["x".to_string()]));
    let b = value("B", Payload::Unnamed(vec!["7".to_string()]));
    let c = value("C", Payload::Unit);
    assert_eq!(p.get_primitive_enum(&a), Some("A".to_string()));
    assert_eq!(p.get_primitive_enum(&b), Some("B".to_string()));
    assert_eq!(p.get_primitive_enum(&c), Some("C".to_string()));
}

#[test]
fn projection_with_named_payload() {
    let k = decl(
        "K",
        vec![primitive_attr(Some(vec![ident("P")]))],
        vec![
            variant("N", Shape::Named(vec!["x".to_string(), "y".to_string()])),
            variant("U", Shape::Unit),
        ],
    );
    let p = derive_primitive_from_enum(&k).unwrap();
    let n = value(
        "N",
        Payload::Named(vec![
            Field { name: "x".to_string(), value: "1".to_string() },
            Field { name: "y".to_string(), value: "2".to_string() },
        ]),
    );
    assert_eq!(p.get_primitive_enum(&n), Some("N".to_string()));
    assert_eq!(p.get_primitive_enum(&value("U", Payload::Unit)), Some("U".to_string()));
    let wrong_fields = value(
        "N",
        Payload::Named(vec![Field { name: "x".to_string(), value: "1".to_string() }]),
    );
    assert_eq!(p.get_primitive_enum(&wrong_fields), None);
}

#[test]
fn byte_codec_on_three_variants() {
    let c = derive_from_u8(&abc()).unwrap();
    assert!(c.eq_u8(0, 0));
    assert!(!c.eq_u8(0, 1));
    assert_eq!(c.try_from(0), Ok(0));
    assert_eq!(c.try_from(1), Ok(1));
    assert_eq!(c.try_from(2), Ok(2));
    assert_eq!(c.variants[1], "B");
    assert_eq!(c.variants[2], "C");
    assert_eq!(c.try_from(3), Err(EnumFromU8Error));
    assert_eq!(c.try_from(255), Err(EnumFromU8Error));
    assert_eq!(c.from_unchecked(2), 2);
    assert_eq!(c.name(), "P");
}

#[test]
fn byte_round_trip_and_byte_of() {
    let c = derive_from_u8(&abc()).unwrap();
    for name in ["A", "B", "C"] {
        let byte = c.byte_of(&name.to_string()).unwrap();
        let back = c.try_from(byte).unwrap();
        assert_eq!(c.variants[back], name);
    }
    assert_eq!(c.byte_of(&"C".to_string()), Some(2));
    assert_eq!(c.byte_of(&"D".to_string()), None);
}

#[test]
fn projection_agrees_with_codec() {
    let k = decl(
        "K",
        vec![primitive_attr(Some(vec![ident("P")]))],
        vec![
            variant("A", Shape::Unnamed(2)),
            variant("B", Shape::Unit),
            variant("C", Shape::Named(vec!["f".to_string()])),
        ],
    );
    let p = derive_primitive_from_enum(&k).unwrap();
    let c = derive_from_u8(&abc()).unwrap();
    assert_eq!(p.primitive_name(), c.name());
    let values = [
        value("A", Payload::Unnamed(vec!["1".to_string(), "2".to_string()])),
        value("B", Payload::Unit),
        value("C", Payload::Named(vec![Field { name: "f".to_string(), value: "3".to_string() }])),
    ];
    for (i, v) in values.iter().enumerate() {
        let tag = p.get_primitive_enum(v).unwrap();
        assert_eq!(c.byte_of(&tag), Some(i as u8));
    }
}

#[test]
fn codec_with_full_byte_range() {
    let names: Vec<String> = (0..256).map(|i| format!("V{}", i)).collect();
    let vs: Vec<Variant> = names.iter().map(|n| variant(n, Shape::Unit)).collect();
    let c = derive_from_u8(&decl("Wide", vec![], vs.clone())).unwrap();
    assert_eq!(c.try_from(255), Ok(255));
    assert_eq!(c.from_unchecked(255), 255);
    let mut more = vs;
    more.push(variant("Extra", Shape::Unit));
    assert_eq!(derive_from_u8(&decl("Wider", vec![], more)).unwrap_err(), DeriveError::DisallowedShape);
}

#[test]
fn rejects_missing_companion_attribute() {
    let k = decl("K", vec![], vec![variant("A", Shape::Unnamed(1)), variant("B", Shape::Unit)]);
    assert_eq!(derive_primitive_from_enum(&k).unwrap_err(), DeriveError::MissingCompanionAttribute);
}

#[test]
fn rejects_malformed_companion_attribute() {
    let vs = vec![variant("A", Shape::Unnamed(1)), variant("B", Shape::Unit)];
    let two = decl("K", vec![primitive_attr(Some(vec![ident("P"), Token::Punct(',')]))], vs.clone());
    assert_eq!(derive_primitive_from_enum(&two).unwrap_err(), DeriveError::MalformedCompanionAttribute);
    let literal = decl("K", vec![primitive_attr(Some(vec![Token::Literal("\"P\"".to_string())]))], vs.clone());
    assert_eq!(derive_primitive_from_enum(&literal).unwrap_err(), DeriveError::MalformedCompanionAttribute);
    let bare = decl("K", vec![primitive_attr(None)], vs);
    assert_eq!(derive_primitive_from_enum(&bare).unwrap_err(), DeriveError::MalformedCompanionAttribute);
}

#[test]
fn rejects_payload_free_projection_input() {
    let k = decl(
        "K",
        vec![primitive_attr(Some(vec![ident("P")]))],
        vec![variant("A", Shape::Unit), variant("B", Shape::Unit)],
    );
    assert_eq!(derive_primitive_from_enum(&k).unwrap_err(), DeriveError::DisallowedShape);
}

#[test]
fn rejects_payload_bearing_codec_input() {
    let k = decl("K", vec![], vec![variant("A", Shape::Unnamed(1)), variant("B", Shape::Unit)]);
    assert_eq!(derive_from_u8(&k).unwrap_err(), DeriveError::DisallowedShape);
}

#[test]
fn rejects_non_sum_types() {
    let s = Decl { name: "S".to_string(), attrs: vec![], body: Body::Other };
    assert_eq!(derive_from_u8(&s).unwrap_err(), DeriveError::NotASumType);
    assert_eq!(derive_primitive_from_enum(&s).unwrap_err(), DeriveError::NotASumType);
}

#[test]
fn rejects_explicit_discriminants() {
    let mut b = variant("B", Shape::Unit);
    b.discriminant = true;
    let codec_input = decl("P", vec![], vec![variant("A", Shape::Unit), b.clone()]);
    assert_eq!(derive_from_u8(&codec_input).unwrap_err(), DeriveError::UnsupportedVariantFeature);
    let projection_input = decl(
        "K",
        vec![primitive_attr(Some(vec![ident("P")]))],
        vec![variant("A", Shape::Unnamed(1)), b],
    );
    assert_eq!(
        derive_primitive_from_enum(&projection_input).unwrap_err(),
        DeriveError::UnsupportedVariantFeature
    );
}

#[test]
fn attribute_reader_takes_first_primitive() {
    let other = Attr { path: vec!["repr".to_string()], args: Some(vec![ident("u8")]) };
    let nested = Attr {
        path: vec!["a".to_string(), "primitive".to_string()],
        args: Some(vec![ident("Q")]),
    };
    let attrs = vec![other, nested, primitive_attr(Some(vec![ident("P")])), primitive_attr(None)];
    assert_eq!(get_primitive_name(&attrs), Ok("P".to_string()));
    assert_eq!(get_primitive_name(&attrs[..2].to_vec()), Err(DeriveError::MissingCompanionAttribute));
}

#[test]
fn empty_payloads_count_as_unit() {
    let vs = vec![variant("A", Shape::Unnamed(0)), variant("B", Shape::Named(vec![]))];
    assert!(is_simple(&vs));
    let pattern = variant_pattern(&"K".to_string(), &vs[0]);
    assert!(pattern.fields.is_empty());
    assert!(pattern.matches(&value("A", Payload::Unit)));
    assert!(pattern.matches(&value("A", Payload::Unnamed(vec![]))));
    assert!(!pattern.matches(&value("B", Payload::Unit)));
    let wildcards = variant_pattern(&"K".to_string(), &variant("T", Shape::Unnamed(3)));
    assert!(!wildcards.matches(&value("T", Payload::Unnamed(vec!["1".to_string()]))));
}

#[test]
fn error_message() {
    assert_eq!(EnumFromU8Error.message(), "EnumFromU8Error");
}
