use cargo_futhark::{Target, TargetSet};

#[test]
fn every_target_has_its_names() {
    let expected = [
        (Target::C, "c", "C"),
        (Target::MultiCore, "multicore", "MultiCore"),
        (Target::OpenCL, "opencl", "OpenCL"),
        (Target::Cuda, "cuda", "Cuda"),
        (Target::ISPC, "ispc", "Ispc"),
    ];
    assert_eq!(Target::all().len(), expected.len());
    for (i, (target, name, struct_name)) in expected.iter().enumerate() {
        assert_eq!(Target::all()[i], *target);
        assert_eq!(target.name(), *name);
        assert_eq!(target.struct_name(), *struct_name);
    }
}

#[test]
fn accelerators_link_to_their_libraries() {
    assert!(Target::C.link_libraries().is_empty());
    assert!(Target::MultiCore.link_libraries().is_empty());
    assert!(Target::ISPC.link_libraries().is_empty());
    assert_eq!(Target::OpenCL.link_libraries(), vec!["OpenCL"]);
    assert_eq!(Target::Cuda.link_libraries(), vec!["cuda", "cudart", "nvrtc"]);
}

#[test]
fn the_symbols_of_two_targets_never_meet() {
    assert_eq!(Target::C.symbol_prefix(), "futhark_c_");
    assert_eq!(Target::OpenCL.symbol_prefix(), "futhark_opencl_");
    for a in Target::all() {
        for b in Target::all() {
            let x = format!("{}context", a.symbol_prefix());
            let y = format!("{}context", b.symbol_prefix());
            assert_eq!(a == b, x == y);
            if a != b {
                assert!(!x.starts_with(&b.symbol_prefix()));
            }
        }
    }
}

#[test]
fn an_empty_set_holds_nothing() {
    let set = TargetSet::empty();
    assert!(set.is_empty());
    assert!(set.targets().is_empty());
    for target in Target::all() {
        assert!(!set.contains(target));
    }
}

#[test]
fn a_set_holds_what_was_added() {
    let set = TargetSet::empty().with(Target::Cuda).with(Target::C);
    assert!(!set.is_empty());
    assert!(set.contains(Target::C));
    assert!(set.contains(Target::Cuda));
    assert!(!set.contains(Target::OpenCL));
    assert!(!set.contains(Target::MultiCore));
    assert!(!set.contains(Target::ISPC));
    assert_eq!(set.with(Target::C), set);
}

#[test]
fn targets_are_listed_in_the_order_of_declaration() {
    let set = TargetSet::empty().with(Target::ISPC).with(Target::C).with(Target::OpenCL);
    assert_eq!(set.targets(), vec![Target::C, Target::OpenCL, Target::ISPC]);
    assert_eq!(TargetSet::all().targets(), Target::all());
    assert_eq!(TargetSet::empty().with(Target::Cuda).with(Target::Cuda).targets(), vec![
        Target::Cuda
    ]);
}

#[test]
fn a_union_holds_the_targets_of_both_sets() {
    let a = TargetSet::empty().with(Target::C).with(Target::Cuda);
    let b = TargetSet::empty().with(Target::Cuda).with(Target::ISPC);
    let both = a.union(b);
    assert_eq!(both.targets(), vec![Target::C, Target::Cuda, Target::ISPC]);
    assert_eq!(a.union(TargetSet::empty()), a);
    assert_eq!(TargetSet::empty().union(TargetSet::empty()), TargetSet::empty());
    assert_eq!(a.union(TargetSet::all()), TargetSet::all());
}
