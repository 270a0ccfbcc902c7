use annotation::{Annotation, Identifier, Mode, Type, TypeName};

fn literal(name: TypeName, mode: Mode) -> Annotation {
    Annotation::Literal(Type { name, mode })
}

#[test]
fn test_annotation_parse() {
    assert_eq!(
        Annotation::parse("field.private"),
        Ok((literal(TypeName::Field, Mode::Private), ""))
    );
    assert_eq!(
        Annotation::parse("signature"),
        Ok((Annotation::Composite(Identifier::new("signature")), ""))
    );
    assert_eq!(Annotation::parse("record"), Ok((Annotation::Record, "")));
}

#[test]
fn test_annotation_parse_fails() {
    // Type must not contain a keyword.
    assert!(Annotation::parse("field").is_err());
    // Composite must not contain visibility.
    assert_eq!(
        Ok((Identifier::new("signature"), ".private")),
        Identifier::parse("signature.private")
    );
    // Record must not contain visibility.
    assert!(Identifier::parse("record.private").is_err());
}

#[test]
fn test_parse_every_type_name_and_mode() {
    let names = [
        (TypeName::Address, "address"),
        (TypeName::Boolean, "boolean"),
        (TypeName::Field, "field"),
        (TypeName::Group, "group"),
        (TypeName::I8, "i8"),
        (TypeName::I16, "i16"),
        (TypeName::I32, "i32"),
        (TypeName::I64, "i64"),
        (TypeName::I128, "i128"),
        (TypeName::Scalar, "scalar"),
        (TypeName::U8, "u8"),
        (TypeName::U16, "u16"),
        (TypeName::U32, "u32"),
        (TypeName::U64, "u64"),
        (TypeName::U128, "u128"),
    ];
    let modes = [
        (Mode::Constant, "constant"),
        (Mode::Public, "public"),
        (Mode::Private, "private"),
    ];
    for (name, name_text) in names {
        for (mode, mode_text) in modes {
            let text = format!("{}.{}", name_text, mode_text);
            assert_eq!(Annotation::parse(&text), Ok((literal(name, mode), "")));
            // A bare type name with no mode suffix must fail.
            assert!(Annotation::parse(name_text).is_err());
        }
    }
}

#[test]
fn test_round_trip_literal() {
    let a = literal(TypeName::Field, Mode::Private);
    let text = a.to_text();
    assert_eq!(text, "field.private");
    let (b, rest) = Annotation::parse(&text).unwrap();
    assert_eq!(b, a);
    assert_eq!(rest, "");
}

#[test]
fn test_round_trip_composite() {
    let a = Annotation::Composite(Identifier::new("signature"));
    let text = a.to_text();
    assert_eq!(text, "signature");
    let (b, rest) = Annotation::parse(&text).unwrap();
    assert_eq!(b, a);
    assert_eq!(rest, "");
}

#[test]
fn test_round_trip_record() {
    let a = Annotation::Record;
    let text = a.to_text();
    assert_eq!(text, "record");
    let (b, rest) = Annotation::parse(&text).unwrap();
    assert_eq!(b, a);
    assert_eq!(rest, "");
}

#[test]
fn test_round_trip_parse_then_print() {
    for s in ["u128.constant", "token_amount", "record", "i8.public", "my_record_9"] {
        let (a, rest) = Annotation::parse(s).unwrap();
        assert_eq!(rest, "");
        assert_eq!(a.to_text(), s);
    }
}

#[test]
fn test_exactly_one_tag() {
    let values = [
        literal(TypeName::Group, Mode::Public),
        Annotation::Composite(Identifier::new("signature")),
        Annotation::Record,
    ];
    for a in &values {
        let tags = [a.is_literal(), a.is_composite(), a.is_record()];
        assert_eq!(tags.iter().filter(|t| **t).count(), 1);
    }
    assert!(values[0].is_literal());
    assert!(values[1].is_composite());
    assert!(values[2].is_record());
}

#[test]
fn test_priority_type_over_identifier() {
    // `fieldx` begins with a type name but has no mode suffix: the type
    // production fails, and the identifier production claims the whole name.
    assert_eq!(
        Annotation::parse("fieldx"),
        Ok((Annotation::Composite(Identifier::new("fieldx")), ""))
    );
    // `field.private` must go to the type production, not split as an
    // identifier.
    let (a, rest) = Annotation::parse("field.private").unwrap();
    assert!(a.is_literal());
    assert_eq!(rest, "");
}

#[test]
fn test_identifier_stops_at_dot() {
    let (id, rest) = Identifier::parse("token_9.private").unwrap();
    assert_eq!(id.as_str(), "token_9");
    assert_eq!(rest, ".private");
}

#[test]
fn test_identifier_rejects_reserved() {
    for kw in [
        "address", "boolean", "field", "group", "i8", "i16", "i32", "i64", "i128", "scalar",
        "u8", "u16", "u32", "u64", "u128", "record",
    ] {
        assert!(Identifier::parse(kw).is_err());
    }
    // A keyword followed by more identifier characters is not reserved.
    assert_eq!(Identifier::parse("recordx").unwrap().0.as_str(), "recordx");
}

#[test]
fn test_record_prefix_behavior() {
    // The record production matches `record` as a prefix once the type and
    // identifier productions have refused the input; the suffix is returned
    // unconsumed.
    assert_eq!(
        Annotation::parse("record.private"),
        Ok((Annotation::Record, ".private"))
    );
}

#[test]
fn test_trailing_text_returned() {
    assert_eq!(
        Annotation::parse("field.private rest"),
        Ok((literal(TypeName::Field, Mode::Private), " rest"))
    );
    assert_eq!(
        Annotation::parse("field.privatex"),
        Ok((literal(TypeName::Field, Mode::Private), "x"))
    );
    assert_eq!(
        Annotation::parse("signature.private"),
        Ok((Annotation::Composite(Identifier::new("signature")), ".private"))
    );
}

#[test]
fn test_parse_failures() {
    for s in ["", ".private", "9token", "Field.private", "field.", "field.secret", "_x"] {
        let e = Annotation::parse(s).unwrap_err();
        assert_eq!(e.input(), s);
    }
}

#[test]
fn test_equality() {
    // Distinct variants are never equal, even when their texts overlap.
    let composite = Annotation::Composite(Identifier::new("recordlike"));
    assert_ne!(composite, Annotation::Record);
    assert_ne!(composite, literal(TypeName::Field, Mode::Private));
    assert_ne!(Annotation::Record, literal(TypeName::Field, Mode::Private));
    // Literals are equal iff name and mode agree.
    assert_eq!(
        literal(TypeName::Field, Mode::Private),
        literal(TypeName::Field, Mode::Private)
    );
    assert_ne!(
        literal(TypeName::Field, Mode::Private),
        literal(TypeName::Field, Mode::Public)
    );
    assert_ne!(
        literal(TypeName::Field, Mode::Private),
        literal(TypeName::Group, Mode::Private)
    );
    // Composites are equal iff their identifiers agree.
    assert_eq!(
        Annotation::Composite(Identifier::new("a_1")),
        Annotation::Composite(Identifier::new("a_1"))
    );
    assert_ne!(
        Annotation::Composite(Identifier::new("a_1")),
        Annotation::Composite(Identifier::new("a_2"))
    );
    assert_eq!(Annotation::Record, Annotation::Record);
}

#[test]
fn test_to_text() {
    assert_eq!(literal(TypeName::U64, Mode::Constant).to_text(), "u64.constant");
    assert_eq!(
        Annotation::Composite(Identifier::new("token")).to_text(),
        "token"
    );
    assert_eq!(Annotation::Record.to_text(), "record");
}

#[test]
fn test_type_parse_direct() {
    let (t, rest) = Type::parse("scalar.constant!").unwrap();
    assert_eq!(t, Type { name: TypeName::Scalar, mode: Mode::Constant });
    assert_eq!(rest, "!");
    assert!(Type::parse("scalar").is_err());
    assert!(Type::parse("scalar.").is_err());
    assert!(Type::parse("scalar.hidden").is_err());
}
