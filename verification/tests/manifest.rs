use cargo_futhark::json::{Json, Member};
use cargo_futhark::manifest::{
    from_document, load, load_array, load_entry_point, load_type, Argument, ArrayType, Field,
    Manifest, ManifestError, Type, ValueType,
};

const LIBRARY: &str = r#"{
  "backend": "c",
  "entry_points": {
    "double": {
      "cfun": "futhark_entry_double",
      "inputs": [{"name": "xs", "type": "[]f64", "unique": false}],
      "outputs": [{"type": "[]f64", "unique": false}]
    },
    "average": {
      "cfun": "futhark_entry_average",
      "inputs": [{"name": "xs", "type": "[]f64", "unique": false}],
      "outputs": [{"type": "f64", "unique": false}]
    }
  },
  "types": {
    "[]f64": {
      "ctype": "struct futhark_f64_1d *",
      "elemtype": "f64",
      "kind": "array",
      "ops": {"free": "futhark_free_f64_1d"},
      "rank": 1
    }
  },
  "version": "0.24.3"
}"#;

fn text(value: &str) -> Json {
    Json::String(value.to_string())
}

fn object(members: Vec<(&str, Json)>) -> Json {
    Json::Object(
        members
            .into_iter()
            .map(|(key, value)| Member { key: key.to_string(), value })
            .collect(),
    )
}

fn array_entry(elemtype: &str, rank: i64) -> Json {
    object(vec![
        ("kind", text("array")),
        ("elemtype", text(elemtype)),
        ("rank", Json::Number(Some(rank))),
    ])
}

fn params(types: &[&str]) -> Json {
    Json::Array(types.iter().map(|t| object(vec![("type", text(t))])).collect())
}

fn entry(inputs: &[&str], outputs: &[&str]) -> Json {
    object(vec![("inputs", params(inputs)), ("outputs", params(outputs))])
}

fn document(types: Vec<(&str, Json)>, entry_points: Vec<(&str, Json)>) -> Json {
    object(vec![("types", object(types)), ("entry_points", object(entry_points))])
}

fn f64_1d() -> Type {
    Type::Array(ArrayType { elements: ValueType::F64, rank: 1 })
}

fn scalars() -> Vec<Type> {
    ValueType::variants().into_iter().map(Type::Value).collect()
}

#[test]
fn a_library_is_read_from_its_manifest() {
    let manifest: Manifest = load(LIBRARY).unwrap();
    assert_eq!(manifest.entry_points.len(), 2);
    assert_eq!(manifest.entry_points[0].name, "double");
    assert_eq!(manifest.entry_points[0].inputs, vec![f64_1d()]);
    assert_eq!(manifest.entry_points[0].outputs, vec![f64_1d()]);
    assert_eq!(manifest.entry_points[1].name, "average");
    assert_eq!(manifest.entry_points[1].inputs, vec![f64_1d()]);
    assert_eq!(manifest.entry_points[1].outputs, vec![Type::Value(ValueType::F64)]);
    let mut types = scalars();
    types.push(f64_1d());
    assert_eq!(manifest.types, types);
}

#[test]
fn entry_points_keep_the_order_of_the_document() {
    let doc = document(
        vec![],
        vec![
            ("zeta", entry(&["i32"], &["i32"])),
            ("alpha", entry(&[], &["u8"])),
            ("mid", entry(&["f16", "i64"], &[])),
        ],
    );
    let manifest = from_document(&doc).unwrap();
    let names: Vec<&str> = manifest.entry_points.iter().map(|e| e.name.as_str()).collect();
    assert_eq!(names, vec!["zeta", "alpha", "mid"]);
    assert_eq!(
        manifest.entry_points[2].inputs,
        vec![Type::Value(ValueType::F16), Type::Value(ValueType::i64)]
    );
    assert!(manifest.entry_points[2].outputs.is_empty());
    assert!(manifest.entry_points[1].inputs.is_empty());
    assert_eq!(manifest.types, scalars());
}

#[test]
fn parameters_keep_the_order_of_the_document() {
    let doc = document(
        vec![("[][]i32", array_entry("i32", 2)), ("[]u8", array_entry("u8", 1))],
        vec![("mix", entry(&["[]u8", "f32", "[][]i32"], &["[][]i32", "u64"]))],
    );
    let manifest = from_document(&doc).unwrap();
    let i32_2d = Type::Array(ArrayType { elements: ValueType::i32, rank: 2 });
    let u8_1d = Type::Array(ArrayType { elements: ValueType::u8, rank: 1 });
    assert_eq!(
        manifest.entry_points[0].inputs,
        vec![u8_1d, Type::Value(ValueType::F32), i32_2d]
    );
    assert_eq!(manifest.entry_points[0].outputs, vec![i32_2d, Type::Value(ValueType::u64)]);
    let mut types = scalars();
    types.push(i32_2d);
    types.push(u8_1d);
    assert_eq!(manifest.types, types);
}

#[test]
fn every_type_of_an_entry_point_is_a_type_of_the_manifest() {
    let manifest = load(LIBRARY).unwrap();
    for entry in &manifest.entry_points {
        for type_ in entry.inputs.iter().chain(entry.outputs.iter()) {
            assert!(manifest.types.contains(type_));
        }
    }
}

#[test]
fn a_type_declared_under_a_scalar_name_takes_its_place() {
    let doc = document(vec![("i8", array_entry("i8", 1))], vec![("f", entry(&["i8"], &[]))]);
    let manifest = from_document(&doc).unwrap();
    let i8_1d = Type::Array(ArrayType { elements: ValueType::i8, rank: 1 });
    assert_eq!(manifest.types.len(), 11);
    assert_eq!(manifest.types[0], i8_1d);
    assert_eq!(manifest.types[1], Type::Value(ValueType::i16));
    assert_eq!(manifest.entry_points[0].inputs, vec![i8_1d]);
}

#[test]
fn a_text_that_is_no_json_is_turned_down() {
    assert!(matches!(load("{"), Err(ManifestError::InvalidJson)));
    assert!(matches!(load(""), Err(ManifestError::InvalidJson)));
    assert_eq!(load("not json").unwrap_err().message(), "Failed to parse manifest JSON.");
}

#[test]
fn a_document_without_its_tables_is_turned_down() {
    match load("{}") {
        Err(ManifestError::MissingField { owner, field }) => {
            assert_eq!(owner, "");
            assert_eq!(field, Field::Types);
        }
        other => panic!("unexpected: {:?}", other),
    }
    match load("{\"types\": {}}") {
        Err(ManifestError::MissingField { owner, field }) => {
            assert_eq!(owner, "");
            assert_eq!(field, Field::EntryPoints);
        }
        other => panic!("unexpected: {:?}", other),
    }
    assert!(matches!(
        load("{\"types\": [], \"entry_points\": {}}"),
        Err(ManifestError::MissingField { field: Field::Types, .. })
    ));
    assert!(matches!(load("[]"), Err(ManifestError::MissingField { field: Field::Types, .. })));
    let empty = load("{\"types\": {}, \"entry_points\": {}}").unwrap();
    assert!(empty.entry_points.is_empty());
    assert_eq!(empty.types, scalars());
}

#[test]
fn an_undeclared_type_is_turned_down() {
    let text = r#"{
      "types": {},
      "entry_points": {
        "main": {"inputs": [{"type": "[]f64"}], "outputs": [{"type": "f64"}]}
      }
    }"#;
    match load(text) {
        Err(ManifestError::UnknownType { entry_point, name }) => {
            assert_eq!(entry_point, "main");
            assert_eq!(name, "[]f64");
        }
        other => panic!("unexpected: {:?}", other),
    }
    assert_eq!(
        load(text).unwrap_err().message(),
        "Entry point main refers to unknown type []f64."
    );
}

#[test]
fn an_undeclared_output_type_is_turned_down() {
    let doc = document(
        vec![("[]f64", array_entry("f64", 1))],
        vec![("ok", entry(&["[]f64"], &["f64"])), ("bad", entry(&["[]f64"], &["f64", "[]i8"]))],
    );
    match from_document(&doc) {
        Err(ManifestError::UnknownType { entry_point, name }) => {
            assert_eq!(entry_point, "bad");
            assert_eq!(name, "[]i8");
        }
        other => panic!("unexpected: {:?}", other),
    }
}

#[test]
fn a_type_of_another_kind_is_turned_down() {
    let text = r#"{
      "types": {
        "[]f64": {"kind": "array", "elemtype": "f64", "rank": 1},
        "state": {"kind": "opaque", "ctype": "struct futhark_opaque_state *"}
      },
      "entry_points": {}
    }"#;
    match load(text) {
        Err(ManifestError::UnsupportedKind { name, kind }) => {
            assert_eq!(name, "state");
            assert_eq!(kind, "opaque");
        }
        other => panic!("unexpected: {:?}", other),
    }
    assert_eq!(load(text).unwrap_err().message(), "Types of kind opaque are not supported.");
}

#[test]
fn a_type_without_a_kind_is_turned_down() {
    let doc = document(
        vec![("t", object(vec![("elemtype", text("f64")), ("rank", Json::Number(Some(1)))]))],
        vec![],
    );
    match from_document(&doc) {
        Err(ManifestError::MissingField { owner, field }) => {
            assert_eq!(owner, "t");
            assert_eq!(field, Field::Kind);
        }
        other => panic!("unexpected: {:?}", other),
    }
    let no_object = document(vec![("t", Json::Number(Some(1)))], vec![]);
    assert!(matches!(
        from_document(&no_object),
        Err(ManifestError::MissingField { field: Field::Kind, .. })
    ));
}

#[test]
fn the_first_fault_decides_the_error() {
    let doc = document(
        vec![
            ("a", object(vec![("kind", text("record"))])),
            ("b", object(vec![("kind", text("sum"))])),
        ],
        vec![("f", entry(&["nothing"], &[]))],
    );
    match from_document(&doc) {
        Err(ManifestError::UnsupportedKind { name, kind }) => {
            assert_eq!(name, "a");
            assert_eq!(kind, "record");
        }
        other => panic!("unexpected: {:?}", other),
    }
}

#[test]
fn an_array_type_is_read_from_its_entry() {
    let read = load_array("[][]u16", &array_entry("u16", 2)).unwrap();
    assert_eq!(read, ArrayType { elements: ValueType::u16, rank: 2 });
    let flat = load_array("x", &array_entry("f16", 0)).unwrap();
    assert_eq!(flat, ArrayType { elements: ValueType::F16, rank: 0 });
    assert_eq!(load_type("x", &array_entry("i8", 3)).unwrap(), Type::Array(ArrayType {
        elements: ValueType::i8,
        rank: 3,
    }));
}

#[test]
fn an_array_of_unknown_elements_is_turned_down() {
    match load_array("[]bool", &array_entry("bool", 1)) {
        Err(ManifestError::UnknownValueType { name }) => assert_eq!(name, "bool"),
        other => panic!("unexpected: {:?}", other),
    }
    let missing = object(vec![("kind", text("array")), ("rank", Json::Number(Some(1)))]);
    match load_array("[]x", &missing) {
        Err(ManifestError::MissingField { owner, field }) => {
            assert_eq!(owner, "[]x");
            assert_eq!(field, Field::ElemType);
        }
        other => panic!("unexpected: {:?}", other),
    }
}

#[test]
fn a_rank_must_be_a_natural_number() {
    match load_array("[]f64", &array_entry("f64", -1)) {
        Err(ManifestError::InvalidRank { name }) => assert_eq!(name, "[]f64"),
        other => panic!("unexpected: {:?}", other),
    }
    let fraction = object(vec![("elemtype", text("f64")), ("rank", Json::Number(None))]);
    assert!(matches!(load_array("a", &fraction), Err(ManifestError::InvalidRank { .. })));
    let word = object(vec![("elemtype", text("f64")), ("rank", text("1"))]);
    assert!(matches!(
        load_array("a", &word),
        Err(ManifestError::MissingField { field: Field::Rank, .. })
    ));
    let none = object(vec![("elemtype", text("f64"))]);
    assert!(matches!(
        load_array("a", &none),
        Err(ManifestError::MissingField { field: Field::Rank, .. })
    ));
    let text = "{\"types\": {\"a\": {\"kind\": \"array\", \"elemtype\": \"f64\", \"rank\": 1.5}}, \"entry_points\": {}}";
    assert!(matches!(load(text), Err(ManifestError::InvalidRank { .. })));
    assert_eq!(
        load_array("[]f64", &array_entry("f64", -1)).unwrap_err().message(),
        "Rank of type []f64 is not a valid rank."
    );
}

#[test]
fn an_entry_point_is_read_against_the_declared_types() {
    let types = vec![
        Argument { name: "f64".to_string(), type_: Type::Value(ValueType::F64) },
        Argument { name: "[]f64".to_string(), type_: f64_1d() },
    ];
    let ep = load_entry_point("sum", &entry(&["[]f64"], &["f64"]), &types).unwrap();
    assert_eq!(ep.name, "sum");
    assert_eq!(ep.inputs, vec![f64_1d()]);
    assert_eq!(ep.outputs, vec![Type::Value(ValueType::F64)]);
    match load_entry_point("sum", &entry(&["i32"], &[]), &types) {
        Err(ManifestError::UnknownType { entry_point, name }) => {
            assert_eq!(entry_point, "sum");
            assert_eq!(name, "i32");
        }
        other => panic!("unexpected: {:?}", other),
    }
}

#[test]
fn an_entry_point_must_have_inputs_and_outputs() {
    let types: Vec<Argument> = Vec::new();
    let no_inputs = object(vec![("outputs", params(&[]))]);
    match load_entry_point("f", &no_inputs, &types) {
        Err(ManifestError::MissingField { owner, field }) => {
            assert_eq!(owner, "f");
            assert_eq!(field, Field::Inputs);
        }
        other => panic!("unexpected: {:?}", other),
    }
    let no_outputs = object(vec![("inputs", params(&[]))]);
    assert!(matches!(
        load_entry_point("f", &no_outputs, &types),
        Err(ManifestError::MissingField { field: Field::Outputs, .. })
    ));
    let untyped = object(vec![
        ("inputs", Json::Array(vec![object(vec![("name", text("x"))])])),
        ("outputs", params(&[])),
    ]);
    assert!(matches!(
        load_entry_point("f", &untyped, &types),
        Err(ManifestError::MissingField { field: Field::Type, .. })
    ));
    let error = load_entry_point("f", &no_inputs, &types).unwrap_err();
    assert_eq!(error.message(), "Field inputs of 'f' is missing or malformed.");
}

#[test]
fn an_array_type_is_listed_once() {
    let twice = ArrayType { elements: ValueType::F64, rank: 1 };
    let other = ArrayType { elements: ValueType::F64, rank: 2 };
    let manifest = Manifest {
        entry_points: vec![],
        types: vec![
            Type::Value(ValueType::F64),
            Type::Array(twice),
            Type::Array(other),
            Type::Array(twice),
            Type::Value(ValueType::i8),
            Type::Array(other),
        ],
    };
    assert_eq!(manifest.arrays(), vec![twice, other]);
    let none = Manifest { entry_points: vec![], types: scalars() };
    assert!(none.arrays().is_empty());
}
