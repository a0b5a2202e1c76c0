use cargo_futhark::manifest::{ArrayType, EntryPoint, Manifest, Type, ValueType};
use cargo_futhark::syntax::{Base, FfiType, Name, Param, Pointer};
use cargo_futhark::template::backend::{
    impl_array_template, impl_entry_point_template, impl_template, sys_template,
    trait_array_template, trait_entry_point_template, trait_template,
};
use cargo_futhark::Target;

fn f64_1d() -> ArrayType {
    ArrayType { elements: ValueType::F64, rank: 1 }
}

fn i32_2d() -> ArrayType {
    ArrayType { elements: ValueType::i32, rank: 2 }
}

fn library() -> Manifest {
    Manifest {
        entry_points: vec![
            EntryPoint {
                name: "double".to_string(),
                inputs: vec![Type::Array(f64_1d())],
                outputs: vec![Type::Array(f64_1d())],
            },
            EntryPoint {
                name: "average".to_string(),
                inputs: vec![Type::Array(f64_1d())],
                outputs: vec![Type::Value(ValueType::F64)],
            },
        ],
        types: vec![Type::Value(ValueType::F64), Type::Array(f64_1d())],
    }
}

fn ctx() -> Param {
    Param { name: Name::Ctx, ty: FfiType { pointer: Pointer::Mut, base: Base::Context } }
}

#[test]
fn types_are_written_as_rust_writes_them() {
    let by_value = FfiType { pointer: Pointer::Value, base: Base::Scalar(ValueType::F16) };
    assert_eq!(by_value.text("types"), "f32");
    let status = FfiType { pointer: Pointer::Value, base: Base::Int };
    assert_eq!(status.text("types"), "std::os::raw::c_int");
    let config = FfiType { pointer: Pointer::Mut, base: Base::Config };
    assert_eq!(config.text("types"), "*mut types::futhark_context_config");
    assert_eq!(config.text("sys"), "*mut sys::futhark_context_config");
    let context = FfiType { pointer: Pointer::Const, base: Base::Context };
    assert_eq!(context.text("types"), "*const types::futhark_context");
    let out = FfiType { pointer: Pointer::MutMut, base: Base::Array(i32_2d()) };
    assert_eq!(out.text("sys"), "*mut *mut sys::futhark_i32_2d");
    assert!(Base::Config.is_opaque());
    assert!(Base::Context.is_opaque());
    assert!(Base::Array(f64_1d()).is_opaque());
    assert!(!Base::Int.is_opaque());
    assert!(!Base::Scalar(ValueType::u8).is_opaque());
    assert_eq!(ctx().text(), "ctx: *mut types::futhark_context");
}

#[test]
fn an_array_type_has_four_functions() {
    let operations = trait_array_template(&i32_2d());
    assert_eq!(operations.len(), 4);
    assert_eq!(
        operations[0].header(),
        "unsafe fn futhark_new_i32_2d(ctx: *mut types::futhark_context, data: *const i32, dim_0: i64, dim_1: i64) -> *mut types::futhark_i32_2d"
    );
    assert_eq!(
        operations[1].header(),
        "unsafe fn futhark_shape_i32_2d(ctx: *mut types::futhark_context, array: *mut types::futhark_i32_2d) -> *const i64"
    );
    assert_eq!(
        operations[2].header(),
        "unsafe fn futhark_values_i32_2d(ctx: *mut types::futhark_context, array: *mut types::futhark_i32_2d, data: *mut i32) -> std::os::raw::c_int"
    );
    assert_eq!(
        operations[3].header(),
        "unsafe fn futhark_free_i32_2d(ctx: *mut types::futhark_context, array: *mut types::futhark_i32_2d) -> std::os::raw::c_int"
    );
}

#[test]
fn a_constructor_takes_one_size_for_each_dimension() {
    for rank in [0usize, 1, 3, 11] {
        let array = ArrayType { elements: ValueType::u8, rank };
        let new = &trait_array_template(&array)[0];
        assert_eq!(new.params.len(), 2 + rank);
        for i in 0..rank {
            assert_eq!(new.params[2 + i].name, Name::Dim(i));
            assert_eq!(new.params[2 + i].ty, FfiType {
                pointer: Pointer::Value,
                base: Base::Scalar(ValueType::i64),
            });
        }
    }
    let flat = ArrayType { elements: ValueType::u8, rank: 0 };
    assert_eq!(
        trait_array_template(&flat)[0].header(),
        "unsafe fn futhark_new_u8_0d(ctx: *mut types::futhark_context, data: *const u8) -> *mut types::futhark_u8_0d"
    );
}

#[test]
fn an_entry_point_takes_its_outputs_before_its_inputs() {
    let ep = EntryPoint {
        name: "scale".to_string(),
        inputs: vec![Type::Array(i32_2d()), Type::Value(ValueType::i32)],
        outputs: vec![Type::Array(i32_2d()), Type::Value(ValueType::i64)],
    };
    let operation = trait_entry_point_template(&ep);
    assert_eq!(operation.name, "futhark_entry_scale");
    assert_eq!(operation.ret, Some(FfiType { pointer: Pointer::Value, base: Base::Int }));
    assert_eq!(operation.params, vec![
        ctx(),
        Param {
            name: Name::Out(0),
            ty: FfiType { pointer: Pointer::MutMut, base: Base::Array(i32_2d()) },
        },
        Param {
            name: Name::Out(1),
            ty: FfiType { pointer: Pointer::Mut, base: Base::Scalar(ValueType::i64) },
        },
        Param {
            name: Name::In(0),
            ty: FfiType { pointer: Pointer::Const, base: Base::Array(i32_2d()) },
        },
        Param {
            name: Name::In(1),
            ty: FfiType { pointer: Pointer::Value, base: Base::Scalar(ValueType::i32) },
        },
    ]);
    assert_eq!(
        operation.header(),
        "unsafe fn futhark_entry_scale(ctx: *mut types::futhark_context, out_0: *mut *mut types::futhark_i32_2d, out_1: *mut i64, in_0: *const types::futhark_i32_2d, in_1: i32) -> std::os::raw::c_int"
    );
}

#[test]
fn an_entry_point_without_parameters_takes_the_context_alone() {
    let ep = EntryPoint { name: "tick".to_string(), inputs: vec![], outputs: vec![] };
    assert_eq!(
        trait_entry_point_template(&ep).header(),
        "unsafe fn futhark_entry_tick(ctx: *mut types::futhark_context) -> std::os::raw::c_int"
    );
    assert_eq!(
        impl_entry_point_template(&ep).render(),
        "unsafe fn futhark_entry_tick(ctx: *mut types::futhark_context) -> std::os::raw::c_int {\nsys::futhark_entry_tick(ctx as *mut sys::futhark_context)\n}\n"
    );
}

#[test]
fn the_interface_declares_every_function_once() {
    let backend = trait_template(&library());
    let names: Vec<&str> = backend.methods.iter().map(|m| m.name.as_str()).collect();
    assert_eq!(names, vec![
        "futhark_context_config_new",
        "futhark_context_config_free",
        "futhark_context_new",
        "futhark_context_free",
        "futhark_context_sync",
        "futhark_new_f64_1d",
        "futhark_shape_f64_1d",
        "futhark_values_f64_1d",
        "futhark_free_f64_1d",
        "futhark_entry_double",
        "futhark_entry_average",
    ]);
}

#[test]
fn the_interface_is_written_as_a_trait() {
    let empty = Manifest { entry_points: vec![], types: vec![] };
    assert_eq!(
        trait_template(&empty).render(),
        "pub trait Backend {\nunsafe fn futhark_context_config_new() -> *mut types::futhark_context_config;\nunsafe fn futhark_context_config_free(cfg: *mut types::futhark_context_config);\nunsafe fn futhark_context_new(cfg: *mut types::futhark_context_config) -> *mut types::futhark_context;\nunsafe fn futhark_context_free(ctx: *mut types::futhark_context);\nunsafe fn futhark_context_sync(ctx: *mut types::futhark_context) -> std::os::raw::c_int;\n}\n"
    );
    let text = trait_template(&library()).render();
    assert!(text.contains("unsafe fn futhark_entry_average(ctx: *mut types::futhark_context, out_0: *mut f64, in_0: *const types::futhark_f64_1d) -> std::os::raw::c_int;\n"));
    assert!(text.ends_with("}\n"));
}

#[test]
fn the_interface_counts_five_and_four_for_each_array_and_one_for_each_entry() {
    let mut manifest = library();
    assert_eq!(trait_template(&manifest).methods.len(), 5 + 4 + 2);
    manifest.types.push(Type::Array(i32_2d()));
    manifest.types.push(Type::Array(f64_1d()));
    assert_eq!(trait_template(&manifest).methods.len(), 5 + 8 + 2);
    manifest.entry_points.clear();
    assert_eq!(trait_template(&manifest).methods.len(), 5 + 8);
}

#[test]
fn a_backend_implements_what_the_interface_declares() {
    let manifest = library();
    let declared = trait_template(&manifest);
    for target in Target::all() {
        let implementation = impl_template(&manifest, target);
        assert_eq!(implementation.target, target);
        assert_eq!(implementation.methods.len(), declared.methods.len());
        for (method, operation) in implementation.methods.iter().zip(declared.methods.iter()) {
            assert_eq!(method.signature.name, operation.name);
            assert_eq!(method.signature.params, operation.params);
            assert_eq!(method.signature.ret, operation.ret);
            assert_eq!(method.signature.header(), operation.header());
        }
    }
}

#[test]
fn a_backend_passes_every_parameter_on() {
    let methods = impl_array_template(&f64_1d());
    assert_eq!(methods.len(), 4);
    for method in &methods {
        assert_eq!(method.arguments.len(), method.signature.params.len());
        for (argument, param) in method.arguments.iter().zip(method.signature.params.iter()) {
            assert_eq!(argument.name, param.name);
            if param.ty.base.is_opaque() {
                assert_eq!(argument.cast, Some(param.ty));
            } else {
                assert_eq!(argument.cast, None);
            }
        }
    }
    assert_eq!(methods[0].result_cast, methods[0].signature.ret);
    assert_eq!(methods[1].result_cast, None);
    assert_eq!(methods[2].result_cast, None);
    assert_eq!(methods[3].result_cast, None);
}

#[test]
fn a_backend_reinterprets_the_pointers_to_opaque_types() {
    let methods = impl_array_template(&f64_1d());
    assert_eq!(
        methods[0].render(),
        "unsafe fn futhark_new_f64_1d(ctx: *mut types::futhark_context, data: *const f64, dim_0: i64) -> *mut types::futhark_f64_1d {\nsys::futhark_new_f64_1d(ctx as *mut sys::futhark_context, data, dim_0) as *mut types::futhark_f64_1d\n}\n"
    );
    assert_eq!(
        methods[2].render(),
        "unsafe fn futhark_values_f64_1d(ctx: *mut types::futhark_context, array: *mut types::futhark_f64_1d, data: *mut f64) -> std::os::raw::c_int {\nsys::futhark_values_f64_1d(ctx as *mut sys::futhark_context, array as *mut sys::futhark_f64_1d, data)\n}\n"
    );
    let double = impl_entry_point_template(&library().entry_points[0]);
    assert_eq!(
        double.render(),
        "unsafe fn futhark_entry_double(ctx: *mut types::futhark_context, out_0: *mut *mut types::futhark_f64_1d, in_0: *const types::futhark_f64_1d) -> std::os::raw::c_int {\nsys::futhark_entry_double(ctx as *mut sys::futhark_context, out_0 as *mut *mut sys::futhark_f64_1d, in_0 as *const sys::futhark_f64_1d)\n}\n"
    );
}

#[test]
fn a_backend_takes_in_the_raw_declarations_of_its_target() {
    let text = sys_template(Target::OpenCL);
    assert!(text.starts_with("#![allow(\n    non_upper_case_globals,\n"));
    assert!(text.ends_with(
        "include!(concat!(env!(\"OUT_DIR\"), \"/futhark/\", \"opencl\", \"/futhark_lib.rs\"));\n"
    ));
    assert!(sys_template(Target::C).contains("\"/futhark/\", \"c\", \"/futhark_lib.rs\""));
}

#[test]
fn a_backend_is_written_with_its_marker_type() {
    let empty = Manifest { entry_points: vec![], types: vec![] };
    let text = impl_template(&empty, Target::MultiCore).render();
    assert!(text.starts_with("pub struct MultiCore;\nmod sys {\n#![allow("));
    assert!(text.contains("}\nimpl Backend for MultiCore {\nunsafe fn futhark_context_config_new() -> *mut types::futhark_context_config {\nsys::futhark_context_config_new() as *mut types::futhark_context_config\n}\n"));
    assert!(text.contains("unsafe fn futhark_context_config_free(cfg: *mut types::futhark_context_config) {\nsys::futhark_context_config_free(cfg as *mut sys::futhark_context_config)\n}\n"));
    assert!(text.contains("unsafe fn futhark_context_sync(ctx: *mut types::futhark_context) -> std::os::raw::c_int {\nsys::futhark_context_sync(ctx as *mut sys::futhark_context)\n}\n"));
    assert!(text.ends_with("}\n}\n"));
}
