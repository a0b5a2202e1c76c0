use cargo_futhark::manifest::{ManifestError, ValueType};

#[test]
fn every_scalar_type_is_listed_once() {
    let all = ValueType::variants();
    assert_eq!(all.len(), 11);
    assert_eq!(all[0], ValueType::i8);
    assert_eq!(all[10], ValueType::F64);
    for (i, a) in all.iter().enumerate() {
        for (j, b) in all.iter().enumerate() {
            assert_eq!(i == j, a == b);
        }
    }
}

#[test]
fn manifest_names_resolve_to_their_types() {
    for value in ValueType::variants() {
        let found = ValueType::from_manifest(value.futhark_name()).unwrap();
        assert_eq!(found, value);
    }
}

#[test]
fn a_half_is_widened_to_a_single() {
    assert_eq!(ValueType::F16.futhark_name(), "f16");
    assert_eq!(ValueType::F16.rust_name(), "f32");
    assert_eq!(ValueType::F32.rust_name(), "f32");
    assert_eq!(ValueType::F64.rust_name(), "f64");
    assert_eq!(ValueType::u16.rust_name(), "u16");
    assert_eq!(ValueType::i64.futhark_name(), "i64");
}

#[test]
fn an_unknown_scalar_name_is_an_error() {
    match ValueType::from_manifest("bool") {
        Err(ManifestError::UnknownValueType { name }) => assert_eq!(name, "bool"),
        other => panic!("unexpected: {:?}", other),
    }
    assert!(ValueType::from_manifest("").is_err());
    assert!(ValueType::from_manifest("F64").is_err());
    assert!(ValueType::from_manifest("i8 ").is_err());
}

#[test]
fn an_unknown_scalar_name_is_reported_by_name() {
    let error = ValueType::from_manifest("complex").unwrap_err();
    assert_eq!(error.message(), "Unknown value type complex.");
}
