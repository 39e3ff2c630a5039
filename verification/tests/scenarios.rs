use firmconfig::attribute::assemble_attribute;
use firmconfig::report::render_attribute_report;
use firmconfig::{
    find_attribute, list_attributes, AccessDenied, Attribute, AttributeFiles, AttributeType,
    ConstraintFiles, Error, ReadError,
};

fn absent() -> Result<String, ReadError> {
    Err(ReadError::NotFound)
}

fn text(s: &str) -> Result<String, ReadError> {
    Ok(s.to_string())
}

fn no_constraints() -> ConstraintFiles {
    ConstraintFiles {
        min_value: absent(),
        max_value: absent(),
        scalar_increment: absent(),
        min_length: absent(),
        max_length: absent(),
        possible_values: absent(),
    }
}

fn wifi_boot_files() -> AttributeFiles {
    AttributeFiles {
        name: b"wifi_boot".to_vec(),
        display_name: text("Wireless boot"),
        tpe: text("enumeration"),
        constraints: ConstraintFiles {
            possible_values: text("enabled\ndisabled"),
            ..no_constraints()
        },
        current_value: text("enabled"),
        default_value: Err(ReadError::PermissionDenied),
    }
}

fn max_perf_files() -> AttributeFiles {
    AttributeFiles {
        name: b"max_perf".to_vec(),
        display_name: text("Maximum performance"),
        tpe: text("integer"),
        constraints: ConstraintFiles {
            min_value: text("0"),
            max_value: text("100"),
            scalar_increment: text("5"),
            ..no_constraints()
        },
        current_value: text("50"),
        default_value: text("100"),
    }
}

#[test]
fn wifi_boot_enumeration_with_denied_default() {
    let attribute = assemble_attribute(&wifi_boot_files()).unwrap();
    assert_eq!(
        attribute.tpe,
        AttributeType::Enumeration {
            possible_values: vec!["enabled".to_string(), "disabled".to_string()],
        }
    );
    assert_eq!(attribute.current_value, Ok("enabled".to_string()));
    assert_eq!(attribute.default_value, Err(AccessDenied));
    assert_eq!(
        attribute,
        Attribute {
            name: b"wifi_boot".to_vec(),
            display_name: "Wireless boot".to_string(),
            tpe: AttributeType::Enumeration {
                possible_values: vec!["enabled".to_string(), "disabled".to_string()],
            },
            current_value: Ok("enabled".to_string()),
            default_value: Err(AccessDenied),
        }
    );
}

#[test]
fn max_perf_integer_with_current_value() {
    let attribute = assemble_attribute(&max_perf_files()).unwrap();
    match attribute.tpe {
        AttributeType::Integer { min, max, step } => assert_eq!((min, max, step), (0, 100, 5)),
        _ => panic!("max_perf is an integer"),
    }
    assert_eq!(attribute.current_value, Ok("50".to_string()));
}

#[test]
fn test_fw_is_listed_and_queried() {
    let attributes = list_attributes(&Ok(vec![wifi_boot_files(), max_perf_files()])).unwrap();
    assert_eq!(attributes.len(), 2);
    let wifi_boot = find_attribute(&attributes, b"wifi_boot").unwrap();
    assert_eq!(wifi_boot.current_value, Ok("enabled".to_string()));
    assert_eq!(wifi_boot.default_value, Err(AccessDenied));
    let max_perf = find_attribute(&attributes, b"max_perf").unwrap();
    assert_eq!(max_perf.tpe, AttributeType::Integer { min: 0, max: 100, step: 5 });
    assert_eq!(max_perf.current_value, Ok("50".to_string()));
    assert_eq!(find_attribute(&attributes, b"min_perf"), Err(Error::NoSuchAttribute));
    assert_eq!(
        render_attribute_report(b"TestFW", wifi_boot),
        vec![
            "Device: TestFW",
            "",
            "wifi_boot",
            "    Name: Wireless boot",
            "    Type: Enumeration",
            "        Possible Values:",
            "            enabled",
            "            disabled",
            "    Current value: enabled",
            "    Default value: <Access Denied>",
        ]
    );
}

#[test]
fn unknown_indicator_is_malformed() {
    let files = AttributeFiles { tpe: text("boolean"), ..max_perf_files() };
    assert_eq!(assemble_attribute(&files), Err(Error::MalformedAttribute));
}
