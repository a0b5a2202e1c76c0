use cargo_futhark::generator::{
    bindings_file, raw_target_file, static_library, target_file, ConfigError, Step, C_FILE,
    H_FILE, LIBRARY, MANIFEST, RS_FILE,
};
use cargo_futhark::prefix::{prefix_items, prefix_line, PrefixRemover};
use cargo_futhark::{Generator, Target, TargetSet};

fn steps_of(target: Target) -> Vec<Step> {
    vec![
        Step::CreateDir(target),
        Step::CreateRawDir(target),
        Step::Compile(target),
        Step::CopyManifest(target),
        Step::PrefixHeader(target),
        Step::PrefixSource(target),
        Step::Bind(target),
        Step::CompileC(target),
        Step::Link(target),
    ]
}

#[test]
fn generate_c_target() {
    let mut generator = Generator::new("project-template/src/lib.fut");
    generator.with_target(Target::C).watch_sources(false);
    let mut expected = steps_of(Target::C);
    expected.push(Step::Generate(Target::C));
    expected.push(Step::Format);
    assert_eq!(generator.run(true), Ok(expected));
}

#[test]
fn a_new_generator_watches_its_source_and_has_no_target() {
    let generator = Generator::new("src/lib.fut");
    assert_eq!(generator.source(), "src/lib.fut");
    assert!(generator.targets().is_empty());
    let mut with_target = generator.clone();
    with_target.with_target(Target::C);
    assert_eq!(with_target.run(true).unwrap()[0], Step::Watch);
}

#[test]
fn a_run_without_targets_does_nothing() {
    let generator = Generator::new("src/lib.fut");
    assert_eq!(generator.run(true), Err(ConfigError::NoTargets));
    let mut unwatched = Generator::new("src/lib.fut");
    unwatched.watch_sources(false).with_cuda_home("/opt/cuda");
    assert_eq!(unwatched.run(true), Err(ConfigError::NoTargets));
    let mut declined = Generator::new("src/lib.fut");
    declined.with_target_if(Target::C, false).with_target_if(Target::Cuda, false);
    assert_eq!(declined.run(true), Err(ConfigError::NoTargets));
    assert_eq!(ConfigError::NoTargets.message(), "At least one target must be built.");
}

#[test]
fn a_run_without_source_does_nothing() {
    let mut generator = Generator::new("missing.fut");
    assert_eq!(generator.run(false), Err(ConfigError::MissingSource));
    generator.with_target(Target::C);
    assert_eq!(generator.run(false), Err(ConfigError::MissingSource));
    assert_eq!(ConfigError::MissingSource.message(), "Futhark source file does not exist.");
}

#[test]
fn every_target_is_built_before_the_bindings_are_written() {
    let mut generator = Generator::new("src/lib.fut");
    generator
        .with_target(Target::Cuda)
        .with_target_if(Target::ISPC, true)
        .with_target_if(Target::OpenCL, false)
        .with_target(Target::C);
    let mut expected = vec![Step::Watch];
    expected.extend(steps_of(Target::C));
    expected.extend(steps_of(Target::Cuda));
    expected.extend(steps_of(Target::ISPC));
    expected.push(Step::Generate(Target::C));
    expected.push(Step::Format);
    assert_eq!(generator.run(true), Ok(expected));
    assert_eq!(
        generator.targets(),
        TargetSet::empty().with(Target::C).with(Target::Cuda).with(Target::ISPC)
    );
}

#[test]
fn the_bindings_come_from_the_manifest_of_the_first_target() {
    let mut generator = Generator::new("src/lib.fut");
    generator.with_target(Target::ISPC).with_target(Target::OpenCL).watch_sources(false);
    let steps = generator.run(true).unwrap();
    assert_eq!(steps.len(), 2 * 9 + 2);
    assert_eq!(steps[18], Step::Generate(Target::OpenCL));
    assert_eq!(steps[19], Step::Format);
}

#[test]
fn only_cuda_searches_under_the_cuda_home() {
    let mut generator = Generator::new("src/lib.fut");
    generator.with_target(Target::Cuda).with_target(Target::C);
    assert_eq!(generator.include_path(Target::Cuda), None);
    assert_eq!(generator.link_search_path(Target::Cuda), None);
    generator.with_cuda_home("/opt/cuda");
    assert_eq!(generator.include_path(Target::Cuda), Some("/opt/cuda/include".to_string()));
    assert_eq!(generator.link_search_path(Target::Cuda), Some("/opt/cuda/lib64".to_string()));
    for target in [Target::C, Target::MultiCore, Target::OpenCL, Target::ISPC] {
        assert_eq!(generator.include_path(target), None);
        assert_eq!(generator.link_search_path(target), None);
    }
}

#[test]
fn a_step_names_its_target_and_its_failure() {
    assert_eq!(Step::Watch.target(), None);
    assert_eq!(Step::Format.target(), None);
    assert_eq!(Step::Generate(Target::C).target(), None);
    for step in steps_of(Target::OpenCL) {
        assert_eq!(step.target(), Some(Target::OpenCL));
    }
    assert_eq!(Step::Compile(Target::C).failure(), "Failed to compile Futhark code.");
    assert_eq!(Step::CreateDir(Target::C).failure(), "Could not create target dir.");
    assert_eq!(Step::Bind(Target::C).failure(), "Failed to generate bindings.");
    assert_eq!(Step::Format.failure(), "Failed to format generated Rust library.");
}

#[test]
fn every_file_has_its_place_under_the_output_directory() {
    assert_eq!(target_file(Target::C, MANIFEST), "futhark/c/futhark_lib.json");
    assert_eq!(target_file(Target::OpenCL, H_FILE), "futhark/opencl/futhark_lib.h");
    assert_eq!(target_file(Target::Cuda, C_FILE), "futhark/cuda/futhark_lib.c");
    assert_eq!(target_file(Target::ISPC, RS_FILE), "futhark/ispc/futhark_lib.rs");
    assert_eq!(raw_target_file(Target::MultiCore, LIBRARY), "futhark_raw/multicore/futhark_lib");
    assert_eq!(bindings_file(), "futhark/futhark_lib.rs");
    assert_eq!(static_library(Target::MultiCore), "futhark-lib-multicore");
}

#[test]
fn a_line_is_set_under_the_prefix_of_its_target() {
    assert_eq!(
        prefix_line("futhark_c_", "struct futhark_context;"),
        "struct futhark_c_context;"
    );
    assert_eq!(
        prefix_line("futhark_opencl_", "int futhark_context_sync(struct futhark_context *ctx);"),
        "int futhark_opencl_context_sync(struct futhark_opencl_context *ctx);"
    );
    assert_eq!(prefix_line("futhark_c_", "int x = 0;"), "int x = 0;");
    assert_eq!(prefix_line("futhark_c_", ""), "");
    assert_eq!(
        prefix_line("p_", "memblock_alloc(); lexical_realloc_error();"),
        "p__memblock_alloc(); p__lexical_realloc_error();"
    );
}

#[test]
fn two_targets_never_share_a_symbol() {
    for a in Target::all() {
        for b in Target::all() {
            let x = prefix_line(&a.symbol_prefix(), "futhark_context");
            let y = prefix_line(&b.symbol_prefix(), "futhark_context");
            assert_eq!(a == b, x == y);
            assert_ne!(x, "futhark_context");
        }
    }
    assert_eq!(prefix_line(&Target::Cuda.symbol_prefix(), "futhark_context"), "futhark_cuda_context");
}

#[test]
fn every_line_of_a_file_is_set_under_the_prefix() {
    let lines = vec![
        "#pragma once".to_string(),
        "struct futhark_context_config;".to_string(),
        "".to_string(),
        "void futhark_context_free(struct futhark_context *ctx);".to_string(),
    ];
    assert_eq!(prefix_items("futhark_ispc_", &lines), vec![
        "#pragma once",
        "struct futhark_ispc_context_config;",
        "",
        "void futhark_ispc_context_free(struct futhark_ispc_context *ctx);",
    ]);
    assert!(prefix_items("futhark_c_", &Vec::new()).is_empty());
}

#[test]
fn a_prefixed_name_gets_its_own_name_back() {
    let remover = PrefixRemover::new("futhark_c_");
    assert_eq!(remover.prefix, "futhark_c_");
    assert_eq!(remover.item_name("futhark_c_context"), Some("futhark_context".to_string()));
    assert_eq!(
        remover.item_name("futhark_c_entry_double"),
        Some("futhark_entry_double".to_string())
    );
    assert_eq!(remover.item_name("futhark_context"), None);
    assert_eq!(remover.item_name("free"), None);
    assert_eq!(remover.item_name(""), None);
    let line = prefix_line("futhark_c_", "futhark_new_f64_1d");
    assert_eq!(remover.item_name(&line), Some("futhark_new_f64_1d".to_string()));
}
