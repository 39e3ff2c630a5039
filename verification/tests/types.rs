use firmconfig::attribute_type::{classify_indicator, decode_type};
use firmconfig::{AttributeKind, AttributeType, ConstraintFiles, Error, ReadError};

fn absent() -> Result<String, ReadError> {
    Err(ReadError::NotFound)
}

fn file(s: &str) -> Result<String, ReadError> {
    Ok(s.to_string())
}

fn none() -> ConstraintFiles {
    ConstraintFiles {
        min_value: absent(),
        max_value: absent(),
        scalar_increment: absent(),
        min_length: absent(),
        max_length: absent(),
        possible_values: absent(),
    }
}

fn integer(min: &str, max: &str, step: &str) -> ConstraintFiles {
    ConstraintFiles {
        min_value: file(min),
        max_value: file(max),
        scalar_increment: file(step),
        ..none()
    }
}

fn string(min: &str, max: &str) -> ConstraintFiles {
    ConstraintFiles { min_length: file(min), max_length: file(max), ..none() }
}

fn enumeration(values: &str) -> ConstraintFiles {
    ConstraintFiles { possible_values: file(values), ..none() }
}

fn values(items: &[&str]) -> AttributeType {
    AttributeType::Enumeration { possible_values: items.iter().map(|s| s.to_string()).collect() }
}

#[test]
fn indicator_selects_the_kind() {
    assert_eq!(classify_indicator("integer"), Some(AttributeKind::Integer));
    assert_eq!(classify_indicator("string"), Some(AttributeKind::String));
    assert_eq!(classify_indicator("enumeration"), Some(AttributeKind::Enumeration));
}

#[test]
fn indicator_is_matched_exactly() {
    assert_eq!(classify_indicator(""), None);
    assert_eq!(classify_indicator("Integer"), None);
    assert_eq!(classify_indicator("INTEGER"), None);
    assert_eq!(classify_indicator("integer\n"), None);
    assert_eq!(classify_indicator(" integer"), None);
    assert_eq!(classify_indicator("int"), None);
    assert_eq!(classify_indicator("strings"), None);
    assert_eq!(classify_indicator("enum"), None);
    assert_eq!(classify_indicator("boolean"), None);
}

#[test]
fn integer_fields_are_decoded_exactly() {
    assert_eq!(
        decode_type("integer", &integer("0", "100", "5")),
        Ok(AttributeType::Integer { min: 0, max: 100, step: 5 })
    );
    assert_eq!(
        decode_type("integer", &integer("-40", "+85", "1")),
        Ok(AttributeType::Integer { min: -40, max: 85, step: 1 })
    );
    assert_eq!(
        decode_type("integer", &integer("-9223372036854775808", "9223372036854775807", "1")),
        Ok(AttributeType::Integer { min: i64::MIN, max: i64::MAX, step: 1 })
    );
}

#[test]
fn string_fields_are_decoded_exactly() {
    assert_eq!(
        decode_type("string", &string("0", "64")),
        Ok(AttributeType::String { min_length: 0, max_length: 64 })
    );
    assert_eq!(
        decode_type("string", &string("8", "18446744073709551615")),
        Ok(AttributeType::String { min_length: 8, max_length: u64::MAX })
    );
}

#[test]
fn enumeration_values_are_decoded_in_order() {
    assert_eq!(
        decode_type("enumeration", &enumeration("enabled\ndisabled")),
        Ok(values(&["enabled", "disabled"]))
    );
    assert_eq!(
        decode_type("enumeration", &enumeration("low\nhigh\nlow")),
        Ok(values(&["low", "high", "low"]))
    );
    assert_eq!(decode_type("enumeration", &enumeration("only")), Ok(values(&["only"])));
    assert_eq!(
        decode_type("enumeration", &enumeration("Fast Boot\nFull Boot")),
        Ok(values(&["Fast Boot", "Full Boot"]))
    );
}

#[test]
fn enumeration_accepts_an_empty_list() {
    assert_eq!(decode_type("enumeration", &enumeration("")), Ok(values(&[])));
}

#[test]
fn integer_rejects_text_that_is_no_number() {
    let bad = ["", "low", "1.5", "0x10", " 5", "5 ", "--1", "9223372036854775808"];
    for text in bad {
        assert_eq!(
            decode_type("integer", &integer(text, "100", "5")),
            Err(Error::MalformedAttribute),
            "minimum {:?}",
            text
        );
        assert_eq!(
            decode_type("integer", &integer("0", text, "5")),
            Err(Error::MalformedAttribute),
            "maximum {:?}",
            text
        );
        assert_eq!(
            decode_type("integer", &integer("0", "100", text)),
            Err(Error::MalformedAttribute),
            "increment {:?}",
            text
        );
    }
}

#[test]
fn string_rejects_bounds_that_are_no_number() {
    let bad = ["", "long", "-1", "6.0", "18446744073709551616", "1 "];
    for text in bad {
        assert_eq!(
            decode_type("string", &string(text, "64")),
            Err(Error::MalformedAttribute),
            "minimum {:?}",
            text
        );
        assert_eq!(
            decode_type("string", &string("0", text)),
            Err(Error::MalformedAttribute),
            "maximum {:?}",
            text
        );
    }
}

#[test]
fn missing_required_field_is_malformed() {
    let mut c = integer("0", "100", "5");
    c.min_value = absent();
    assert_eq!(decode_type("integer", &c), Err(Error::MalformedAttribute));
    let mut c = integer("0", "100", "5");
    c.max_value = absent();
    assert_eq!(decode_type("integer", &c), Err(Error::MalformedAttribute));
    let mut c = integer("0", "100", "5");
    c.scalar_increment = absent();
    assert_eq!(decode_type("integer", &c), Err(Error::MalformedAttribute));
    let mut c = string("0", "64");
    c.min_length = absent();
    assert_eq!(decode_type("string", &c), Err(Error::MalformedAttribute));
    let mut c = string("0", "64");
    c.max_length = absent();
    assert_eq!(decode_type("string", &c), Err(Error::MalformedAttribute));
    assert_eq!(decode_type("enumeration", &none()), Err(Error::MalformedAttribute));
    assert_eq!(decode_type("integer", &none()), Err(Error::MalformedAttribute));
    assert_eq!(decode_type("string", &none()), Err(Error::MalformedAttribute));
}

#[test]
fn unreadable_required_field_counts_as_missing() {
    let mut c = integer("0", "100", "5");
    c.max_value = Err(ReadError::PermissionDenied);
    assert_eq!(decode_type("integer", &c), Err(Error::MalformedAttribute));
    let mut c = string("0", "64");
    c.min_length = Err(ReadError::IoError);
    assert_eq!(decode_type("string", &c), Err(Error::MalformedAttribute));
    let mut c = none();
    c.possible_values = Err(ReadError::PermissionDenied);
    assert_eq!(decode_type("enumeration", &c), Err(Error::MalformedAttribute));
}

#[test]
fn unknown_indicator_is_malformed_whatever_the_fields() {
    assert_eq!(decode_type("boolean", &integer("0", "1", "1")), Err(Error::MalformedAttribute));
    assert_eq!(decode_type("", &enumeration("a\nb")), Err(Error::MalformedAttribute));
    assert_eq!(decode_type("Integer", &integer("0", "1", "1")), Err(Error::MalformedAttribute));
    assert_eq!(decode_type("string ", &string("0", "1")), Err(Error::MalformedAttribute));
}

#[test]
fn fields_of_other_kinds_are_not_looked_at() {
    let mut c = integer("0", "100", "5");
    c.min_length = file("not a number");
    c.max_length = Err(ReadError::IoError);
    c.possible_values = file("a\nb");
    assert_eq!(
        decode_type("integer", &c),
        Ok(AttributeType::Integer { min: 0, max: 100, step: 5 })
    );
    let mut c = enumeration("a\nb");
    c.min_value = file("junk");
    assert_eq!(decode_type("enumeration", &c), Ok(values(&["a", "b"])));
    let mut c = string("1", "2");
    c.scalar_increment = file("junk");
    assert_eq!(
        decode_type("string", &c),
        Ok(AttributeType::String { min_length: 1, max_length: 2 })
    );
}

#[test]
fn bounds_are_taken_as_published() {
    let reversed = decode_type("integer", &integer("10", "0", "0")).unwrap();
    assert_eq!(reversed, AttributeType::Integer { min: 10, max: 0, step: 0 });
    assert!(!reversed.has_bounds_in_order());
    let reversed = decode_type("string", &string("9", "3")).unwrap();
    assert_eq!(reversed, AttributeType::String { min_length: 9, max_length: 3 });
    assert!(!reversed.has_bounds_in_order());
}

#[test]
fn bounds_in_order_are_recognised() {
    assert!(AttributeType::Integer { min: 0, max: 100, step: 5 }.has_bounds_in_order());
    assert!(AttributeType::Integer { min: 3, max: 3, step: 1 }.has_bounds_in_order());
    assert!(!AttributeType::Integer { min: 0, max: 100, step: 0 }.has_bounds_in_order());
    assert!(!AttributeType::Integer { min: 0, max: 100, step: -5 }.has_bounds_in_order());
    assert!(!AttributeType::Integer { min: 1, max: 0, step: 1 }.has_bounds_in_order());
    assert!(AttributeType::String { min_length: 0, max_length: 0 }.has_bounds_in_order());
    assert!(!AttributeType::String { min_length: 2, max_length: 1 }.has_bounds_in_order());
    assert!(values(&[]).has_bounds_in_order());
    assert!(values(&["a"]).has_bounds_in_order());
}

#[test]
fn kind_names_the_variant() {
    assert_eq!(AttributeType::Integer { min: 0, max: 1, step: 1 }.kind(), AttributeKind::Integer);
    assert_eq!(
        AttributeType::String { min_length: 0, max_length: 1 }.kind(),
        AttributeKind::String
    );
    assert_eq!(values(&["a"]).kind(), AttributeKind::Enumeration);
}

#[test]
fn cloned_type_is_equal() {
    let types = [
        AttributeType::Integer { min: -1, max: 1, step: 1 },
        AttributeType::String { min_length: 0, max_length: 9 },
        values(&["a", "", "b"]),
    ];
    for t in types {
        assert_eq!(t.clone(), t);
    }
}

#[test]
fn written_constraints_decode_to_the_same_fields() {
    let triples: [(i64, i64, i64); 5] = [
        (0, 100, 5),
        (-40, 85, 1),
        (i64::MIN, i64::MAX, 1),
        (7, 7, 7),
        (-1, -1000, -10),
    ];
    for (min, max, step) in triples {
        let files = integer(&format!("{}", min), &format!("{}", max), &format!("{}", step));
        assert_eq!(decode_type("integer", &files), Ok(AttributeType::Integer { min, max, step }));
    }
    let pairs: [(u64, u64); 4] = [(0, 0), (1, 64), (8, u64::MAX), (300, 20)];
    for (min_length, max_length) in pairs {
        let files = string(&format!("{}", min_length), &format!("{}", max_length));
        assert_eq!(
            decode_type("string", &files),
            Ok(AttributeType::String { min_length, max_length })
        );
    }
    let lists: [&[&str]; 5] = [
        &[],
        &["enabled"],
        &["enabled", "disabled"],
        &["", "auto", "", "manual"],
        &["a b", "a b", "\u{00e9}"],
    ];
    for list in lists {
        let files = enumeration(&list.join("\n"));
        assert_eq!(decode_type("enumeration", &files), Ok(values(list)));
    }
}

#[test]
fn list_that_ends_in_an_empty_value_loses_it() {
    assert_eq!(decode_type("enumeration", &enumeration(&[""].join("\n"))), Ok(values(&[])));
    assert_eq!(
        decode_type("enumeration", &enumeration(&["a", ""].join("\n"))),
        Ok(values(&["a"]))
    );
}
