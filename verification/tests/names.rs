use cargo_futhark::manifest::{ArrayType, EntryPoint, Type, ValueType};
use cargo_futhark::syntax::Name;
use cargo_futhark::text::{concatenate, decimal, join};

fn array(elements: ValueType, rank: usize) -> ArrayType {
    ArrayType { elements, rank }
}

#[test]
fn numbers_are_written_in_decimal() {
    assert_eq!(decimal(0), "0");
    assert_eq!(decimal(7), "7");
    assert_eq!(decimal(9), "9");
    assert_eq!(decimal(10), "10");
    assert_eq!(decimal(42), "42");
    assert_eq!(decimal(1009), "1009");
    assert_eq!(decimal(usize::MAX), usize::MAX.to_string());
}

#[test]
fn items_are_joined_with_a_separator() {
    let none: Vec<String> = Vec::new();
    assert_eq!(join(&none, ", "), "");
    assert_eq!(join(&vec!["a".to_string()], ", "), "a");
    assert_eq!(join(&vec!["a".to_string(), "b".to_string(), "c".to_string()], ", "), "a, b, c");
    assert_eq!(concatenate(&vec!["a".to_string(), "b".to_string(), "c".to_string()]), "abc");
    assert_eq!(concatenate(&none), "");
}

#[test]
fn an_array_type_resolves_to_its_six_names() {
    let a = array(ValueType::F64, 2);
    assert_eq!(a.struct_ident(), "Array_F64_2D");
    assert_eq!(a.type_ident(), "futhark_f64_2d");
    assert_eq!(a.fn_new_ident(), "futhark_new_f64_2d");
    assert_eq!(a.fn_values_ident(), "futhark_values_f64_2d");
    assert_eq!(a.fn_shape_ident(), "futhark_shape_f64_2d");
    assert_eq!(a.fn_free_ident(), "futhark_free_f64_2d");
}

#[test]
fn a_half_keeps_its_name_in_the_symbols() {
    let a = array(ValueType::F16, 1);
    assert_eq!(a.type_ident(), "futhark_f16_1d");
    assert_eq!(a.struct_ident(), "Array_F16_1D");
}

#[test]
fn names_are_the_same_on_every_call() {
    let a = array(ValueType::u8, 3);
    assert_eq!(a.type_ident(), a.type_ident());
    assert_eq!(a.struct_ident(), a.struct_ident());
    assert_eq!(a.fn_new_ident(), array(ValueType::u8, 3).fn_new_ident());
}

#[test]
fn the_names_of_one_type_are_all_different() {
    for elements in ValueType::variants() {
        for rank in [0usize, 1, 2, 10, 11, 123] {
            let a = array(elements, rank);
            let names = vec![
                a.struct_ident(),
                a.type_ident(),
                a.fn_new_ident(),
                a.fn_values_ident(),
                a.fn_shape_ident(),
                a.fn_free_ident(),
            ];
            for i in 0..names.len() {
                for j in 0..names.len() {
                    assert_eq!(i == j, names[i] == names[j]);
                }
            }
        }
    }
}

#[test]
fn different_types_have_different_names() {
    let mut seen: Vec<(String, String)> = Vec::new();
    for elements in ValueType::variants() {
        for rank in [0usize, 1, 2, 9, 10, 11, 21, 100, 101] {
            let a = array(elements, rank);
            let pair = (a.type_ident(), a.struct_ident());
            for other in &seen {
                assert_ne!(other.0, pair.0);
                assert_ne!(other.1, pair.1);
            }
            seen.push(pair);
        }
    }
}

#[test]
fn an_array_of_rank_zero_is_no_scalar() {
    for elements in ValueType::variants() {
        let a = array(elements, 0);
        assert_eq!(a.type_ident(), format!("futhark_{}_0d", elements.futhark_name()));
        for scalar in ValueType::variants() {
            assert_ne!(a.type_ident(), scalar.rust_name());
            assert_ne!(a.type_ident(), scalar.futhark_name());
            assert_ne!(a.struct_ident(), scalar.rust_name());
        }
    }
}

#[test]
fn a_rank_of_several_digits_is_written_out() {
    let a = array(ValueType::i32, 12);
    assert_eq!(a.type_ident(), "futhark_i32_12d");
    assert_eq!(a.struct_ident(), "Array_I32_12D");
    assert_eq!(a.fn_free_ident(), "futhark_free_i32_12d");
}

#[test]
fn an_entry_point_resolves_to_its_two_names() {
    let ep = EntryPoint {
        name: "double".to_string(),
        inputs: vec![Type::Array(array(ValueType::F64, 1))],
        outputs: vec![Type::Array(array(ValueType::F64, 1))],
    };
    assert_eq!(ep.futhark_fn_ident(), "futhark_entry_double");
    assert_eq!(ep.context_fn_ident(), "entry_double");
}

#[test]
fn parameters_are_named_by_their_place() {
    assert_eq!(Name::Ctx.text(), "ctx");
    assert_eq!(Name::Cfg.text(), "cfg");
    assert_eq!(Name::Data.text(), "data");
    assert_eq!(Name::Array.text(), "array");
    assert_eq!(Name::Dim(0).text(), "dim_0");
    assert_eq!(Name::In(3).text(), "in_3");
    assert_eq!(Name::Out(10).text(), "out_10");
}
