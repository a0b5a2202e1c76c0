//! The parts that the bindings are made of, and the bindings as a whole.

use vstd::prelude::*;

pub mod array;
pub mod backend;
pub mod config;
pub mod context;
pub mod types;

use crate::manifest::{spec_arrays, ArrayType, Manifest, ManifestView};
use crate::target::{spec_listing, Target, TargetSet};
use crate::text::{concatenate, spec_concatenate, views};
use array::{spec_wrapper, ArrayWrapper, ArrayWrapperView};
use backend::{
    spec_impl, spec_operations, spec_trait_text, BackendImpl, BackendImplView, BackendTrait,
};
use crate::syntax::SignatureView;
use context::{spec_context_text, spec_entry_methods, ContextDecl, EntryMethodView};
use types::{spec_type_names, spec_types_text, OpaqueTypes};

verus! {

/// The bindings of one library: everything that the generated source
/// declares.
#[derive(Debug, Clone)]
pub struct Bindings {
    /// The declaration of the configuration.
    pub config: String,
    /// The context with one method for each entry point.
    pub context: ContextDecl,
    /// The opaque types that all backends share.
    pub types: OpaqueTypes,
    /// The interface that every backend implements.
    pub backend_trait: BackendTrait,
    /// One implementation of the interface for each target.
    pub backends: Vec<BackendImpl>,
    /// One safe wrapper for each array type.
    pub wrappers: Vec<ArrayWrapper>,
}

/// [`Bindings`] as a value of mathematics.
pub struct BindingsView {
    pub config: Seq<char>,
    pub context: Seq<EntryMethodView>,
    pub types: Seq<Seq<char>>,
    pub backend_trait: Seq<SignatureView>,
    pub backends: Seq<BackendImplView>,
    pub wrappers: Seq<ArrayWrapperView>,
}

impl View for Bindings {
    type V = BindingsView;

    open spec fn view(&self) -> BindingsView {
        BindingsView {
            config: self.config@,
            context: views(self.context.methods@),
            types: views(self.types.names@),
            backend_trait: self.backend_trait.operations(),
            backends: views(self.backends@),
            wrappers: views(self.wrappers@),
        }
    }
}

/// The implementations of the interface for `targets`, one for one.
pub open spec fn spec_backends(manifest: ManifestView, targets: Seq<Target>) -> Seq<
    BackendImplView,
> {
    Seq::new(targets.len(), |i: int| spec_impl(manifest, targets[i]))
}

/// The wrappers of `arrays`, one for one.
pub open spec fn spec_wrappers(arrays: Seq<ArrayType>) -> Seq<ArrayWrapperView> {
    Seq::new(arrays.len(), |i: int| spec_wrapper(arrays[i]))
}

/// The bindings of the library that `manifest` describes, for the backends
/// `targets`: what does not depend on a target once, one backend for each
/// target in the order of their declaration, one wrapper for each array
/// type.
pub open spec fn spec_combined(manifest: ManifestView, targets: Set<Target>) -> BindingsView {
    BindingsView {
        config: config::CONFIG@,
        context: spec_entry_methods(manifest.entry_points),
        types: spec_type_names(manifest),
        backend_trait: spec_operations(manifest),
        backends: spec_backends(manifest, spec_listing(targets)),
        wrappers: spec_wrappers(spec_arrays(manifest.types)),
    }
}

/// Lays out the bindings of the library that `manifest` describes, for the
/// backends `targets`.
pub fn combined(manifest: &Manifest, targets: TargetSet) -> (bindings: Bindings)
    ensures
        bindings@ == spec_combined(manifest@, targets@),
{
    let listed = targets.targets();
    let mut backends: Vec<BackendImpl> = Vec::new();
    let mut i: usize = 0;
    while i < listed.len()
        invariant
            i <= listed.len(),
            backends@.len() == i,
            forall|j: int|
                0 <= j < i ==> (#[trigger] backends@[j])@ == spec_impl(manifest@, listed@[j]),
        decreases listed.len() - i,
    {
        backends.push(backend::impl_template(manifest, listed[i]));
        i = i + 1;
    }
    assert(views(backends@) =~= spec_backends(manifest@, listed@));
    let arrays = manifest.arrays();
    let mut wrappers: Vec<ArrayWrapper> = Vec::new();
    let mut k: usize = 0;
    while k < arrays.len()
        invariant
            k <= arrays.len(),
            wrappers@.len() == k,
            forall|j: int| 0 <= j < k ==> (#[trigger] wrappers@[j])@ == spec_wrapper(arrays@[j]),
        decreases arrays.len() - k,
    {
        wrappers.push(array::template(&arrays[k]));
        k = k + 1;
    }
    assert(views(wrappers@) =~= spec_wrappers(arrays@));
    Bindings {
        config: config::template(),
        context: context::template(manifest),
        types: types::template(manifest),
        backend_trait: backend::trait_template(manifest),
        backends,
        wrappers,
    }
}

/// What opens the module of the backends.
pub const BACKENDS_HEAD: &'static str =
    "/// List of supported backends.\n///\n/// If your desired backend is not available, you might have to modify your `build.rs`\n/// file and add the desired `Target` to the `Generator` using `Generator::with_target`.\n#[allow(clippy::missing_safety_doc)]\npub mod backends {\nuse super::types;\n\n";

impl BackendImplView {
    /// The module of the backend, and the line that makes its marker type
    /// known beside the interface.
    pub open spec fn module_text(self) -> Seq<char> {
        "mod "@ + self.target.spec_name() + " {\nuse super::Backend;\nuse super::super::types;\n\n"@
            + self.text() + "}\npub use "@ + self.target.spec_name() + "::"@
            + self.target.spec_struct_name() + ";\n\n"@
    }
}

/// The modules of `backends`, one for one.
pub open spec fn spec_module_texts(backends: Seq<BackendImplView>) -> Seq<Seq<char>> {
    Seq::new(backends.len(), |i: int| backends[i].module_text())
}

/// The texts of `wrappers`, one for one.
pub open spec fn spec_wrapper_texts(wrappers: Seq<ArrayWrapperView>) -> Seq<Seq<char>> {
    Seq::new(wrappers.len(), |i: int| wrappers[i].text())
}

impl BindingsView {
    /// The bindings as one Rust source: the configuration, the context, the
    /// opaque types, the interface with its backends, the wrappers.
    pub open spec fn text(self) -> Seq<char> {
        "use std::marker::PhantomData;\n\n"@ + self.config + spec_context_text(self.context)
            + spec_types_text(self.types) + BACKENDS_HEAD@ + spec_trait_text(self.backend_trait)
            + spec_concatenate(spec_module_texts(self.backends)) + "}\nuse backends::Backend;\n\n"@
            + spec_concatenate(spec_wrapper_texts(self.wrappers))
    }
}

fn module_text(backend: &BackendImpl) -> (text: String)
    ensures
        text@ == backend@.module_text(),
{
    let mut text = "mod ".to_owned();
    text.append(backend.target.name());
    text.append(" {\nuse super::Backend;\nuse super::super::types;\n\n");
    text.append(backend.render().as_str());
    text.append("}\npub use ");
    text.append(backend.target.name());
    text.append("::");
    text.append(backend.target.struct_name());
    text.append(";\n\n");
    text
}

impl Bindings {
    /// Writes the bindings as one Rust source.
    pub fn render(&self) -> (text: String)
        ensures
            text@ == self@.text(),
    {
        let mut modules: Vec<String> = Vec::new();
        let mut i: usize = 0;
        while i < self.backends.len()
            invariant
                i <= self.backends.len(),
                modules@.len() == i,
                forall|j: int|
                    0 <= j < i ==> (#[trigger] modules@[j])@ == self.backends@[j]@.module_text(),
            decreases self.backends.len() - i,
        {
            modules.push(module_text(&self.backends[i]));
            i = i + 1;
        }
        assert(views(modules@) =~= spec_module_texts(self@.backends));
        let mut wrappers: Vec<String> = Vec::new();
        let mut k: usize = 0;
        while k < self.wrappers.len()
            invariant
                k <= self.wrappers.len(),
                wrappers@.len() == k,
                forall|j: int| 0 <= j < k ==> (#[trigger] wrappers@[j])@ == self.wrappers@[j]@.text(),
            decreases self.wrappers.len() - k,
        {
            wrappers.push(self.wrappers[k].render());
            k = k + 1;
        }
        assert(views(wrappers@) =~= spec_wrapper_texts(self@.wrappers));
        let mut text = "use std::marker::PhantomData;\n\n".to_owned();
        text.append(self.config.as_str());
        text.append(self.context.render().as_str());
        text.append(self.types.render().as_str());
        text.append(BACKENDS_HEAD);
        text.append(self.backend_trait.render().as_str());
        text.append(concatenate(&modules).as_str());
        text.append("}\nuse backends::Backend;\n\n");
        text.append(concatenate(&wrappers).as_str());
        text
    }
}

/// The bindings hold one backend for each target of the set and no other:
/// no target is left out, and none is implemented twice.
pub proof fn lemma_one_backend_per_target(manifest: ManifestView, targets: Set<Target>)
    ensures
        forall|target: Target|
            targets.contains(target) <==> exists|i: int|
                0 <= i < spec_combined(manifest, targets).backends.len() && (#[trigger] spec_combined(
                    manifest,
                    targets,
                ).backends[i]).target == target,
        forall|i: int, j: int|
            0 <= i < j < spec_combined(manifest, targets).backends.len() ==> (#[trigger] spec_combined(
                manifest,
                targets,
            ).backends[i]).target != (#[trigger] spec_combined(manifest, targets).backends[j]).target,
{
    crate::target::lemma_listing(targets);
    let listed = spec_listing(targets);
    let backends = spec_combined(manifest, targets).backends;
    assert forall|target: Target|
        targets.contains(target) <==> exists|i: int|
            0 <= i < backends.len() && (#[trigger] backends[i]).target == target by {
        if targets.contains(target) {
            assert(listed.contains(target));
            let i = choose|i: int| 0 <= i < listed.len() && listed[i] == target;
            assert(backends[i].target == target);
        }
        if exists|i: int| 0 <= i < backends.len() && (#[trigger] backends[i]).target == target {
            let i = choose|i: int| 0 <= i < backends.len() && (#[trigger] backends[i]).target == target;
            assert(listed[i] == target);
            assert(listed.contains(target));
        }
    }
    assert forall|i: int, j: int| 0 <= i < j < backends.len() implies (#[trigger] backends[i]).target
        != (#[trigger] backends[j]).target by {
        assert(listed[i].index() < listed[j].index());
    }
}

/// What the backends share does not depend on the targets: the
/// configuration, the context, the opaque types, the interface and the
/// wrappers are the same whichever targets are asked for.
pub proof fn lemma_common_layer_ignores_targets(
    manifest: ManifestView,
    targets: Set<Target>,
    others: Set<Target>,
)
    ensures
        spec_combined(manifest, targets).config == spec_combined(manifest, others).config,
        spec_combined(manifest, targets).context == spec_combined(manifest, others).context,
        spec_combined(manifest, targets).types == spec_combined(manifest, others).types,
        spec_combined(manifest, targets).backend_trait == spec_combined(
            manifest,
            others,
        ).backend_trait,
        spec_combined(manifest, targets).wrappers == spec_combined(manifest, others).wrappers,
{
}

} // verus!
