use primitive_enum::decl::{Attr, Body, Decl, Shape, Token, Variant};
use primitive_enum::pattern::{Payload, Value};
use primitive_enum::projection::derive_primitive_from_enum;

fn variant(name: &str, shape: Shape) -> Variant {
    Variant { name: name.to_string(), shape, discriminant: false }
}

fn complex() -> Decl {
    Decl {
        name: "Complex".to_string(),
        attrs: vec![Attr {
            path: vec!["primitive".to_string()],
            args: Some(vec![Token::Ident("Primitive".to_string())]),
        }],
        body: Body::Enum(vec![
            variant("A", Shape::Unnamed(1)),
            variant("B", Shape::Unnamed(1)),
            variant("C", Shape::Unit),
        ]),
    }
}

#[test]
fn simple() {
    let projection = derive_primitive_from_enum(&complex()).unwrap();
    let a = Value { variant: "A".to_string(), payload: Payload::Unnamed(vec![String::from("test")]) };
    let b = Value { variant: "B".to_string(), payload: Payload::Unnamed(vec![123u32.to_string()]) };
    let c = Value { variant: "C".to_string(), payload: Payload::Unit };

    assert_eq!(projection.get_primitive_enum(&a), Some("A".to_string()));
    assert_eq!(projection.get_primitive_enum(&b), Some("B".to_string()));
    assert_eq!(projection.get_primitive_enum(&c), Some("C".to_string()));
}
