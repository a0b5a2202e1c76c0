//! The settings of a generator run, and the steps that a run is made of.

use vstd::prelude::*;

use crate::target::{spec_listing, Target, TargetSet};

verus! {

/// Settings of the bindings generator.
///
/// A run compiles the Futhark source once for each target, sets the
/// symbols of the targets apart, generates the raw declarations of each,
/// compiles and links the C code, and writes one safe wrapper around all
/// targets.
#[derive(Debug, Clone)]
pub struct Generator {
    source: String,
    watch: bool,
    cuda_home: Option<String>,
    targets: TargetSet,
}

/// A [`Generator`] as a value of mathematics.
pub struct GeneratorView {
    pub source: Seq<char>,
    pub watch: bool,
    pub cuda_home: Option<Seq<char>>,
    pub targets: Set<Target>,
}

impl View for Generator {
    type V = GeneratorView;

    closed spec fn view(&self) -> GeneratorView {
        GeneratorView {
            source: self.source@,
            watch: self.watch,
            cuda_home: match self.cuda_home {
                Some(home) => Some(home@),
                None => None,
            },
            targets: self.targets@,
        }
    }
}

impl Generator {
    /// Returns a new [`Generator`] with default settings: the source is
    /// watched, and no target is enabled.
    ///
    /// The `source` should be the `.fut` file containing the `entry`
    /// functions. At least one [`Target`] must be added before a run.
    pub fn new(source: &str) -> (generator: Generator)
        ensures
            generator@ == (GeneratorView {
                source: source@,
                watch: true,
                cuda_home: None,
                targets: Set::empty(),
            }),
    {
        Generator {
            source: source.to_owned(),
            cuda_home: None,
            watch: true,
            targets: TargetSet::empty(),
        }
    }

    /// Watch Futhark source file for changes. Enabled by default.
    pub fn watch_sources(&mut self, watch: bool) -> (this: &mut Generator)
        ensures
            this@ == (GeneratorView { watch, ..old(self)@ }),
            *final(self) == *final(this),
    {
        self.watch = watch;
        self
    }

    /// Specify a custom CUDA home path.
    ///
    /// This will add `$cuda_home/include` to the include path and
    /// `$cuda_home/lib64` to the link path of the `cuda` target.
    pub fn with_cuda_home(&mut self, cuda_home: &str) -> (this: &mut Generator)
        ensures
            this@ == (GeneratorView { cuda_home: Some(cuda_home@), ..old(self)@ }),
            *final(self) == *final(this),
    {
        self.cuda_home = Some(cuda_home.to_owned());
        self
    }

    /// Enable the given [Target].
    pub fn with_target(&mut self, target: Target) -> (this: &mut Generator)
        ensures
            this@ == (GeneratorView { targets: old(self)@.targets.insert(target), ..old(self)@ }),
            *final(self) == *final(this),
    {
        self.targets = self.targets.with(target);
        self
    }

    /// Enable the given [Target] conditionally.
    pub fn with_target_if(&mut self, target: Target, condition: bool) -> (this: &mut Generator)
        ensures
            this@ == (GeneratorView {
                targets: if condition {
                    old(self)@.targets.insert(target)
                } else {
                    old(self)@.targets
                },
                ..old(self)@
            }),
            *final(self) == *final(this),
    {
        if condition {
            self.targets = self.targets.with(target);
        }
        self
    }

    /// The Futhark source file.
    pub fn source(&self) -> (source: &str)
        ensures
            source@ == self@.source,
    {
        self.source.as_str()
    }

    /// The targets that were enabled.
    pub fn targets(&self) -> (targets: TargetSet)
        ensures
            targets@ == self@.targets,
    {
        self.targets
    }

    /// The directory that the C compiler searches for the headers of
    /// `target`, beside its own: only the `cuda` target has one, and only
    /// under a CUDA home.
    pub fn include_path(&self, target: Target) -> (path: Option<String>)
        ensures
            path is Some <==> target == Target::Cuda && self@.cuda_home is Some,
            path is Some ==> path->Some_0@ == self@.cuda_home->Some_0 + "/include"@,
    {
        self.under_cuda_home(target, "/include")
    }

    /// The directory that the linker searches for the libraries of
    /// `target`, beside its own: only the `cuda` target has one, and only
    /// under a CUDA home.
    pub fn link_search_path(&self, target: Target) -> (path: Option<String>)
        ensures
            path is Some <==> target == Target::Cuda && self@.cuda_home is Some,
            path is Some ==> path->Some_0@ == self@.cuda_home->Some_0 + "/lib64"@,
    {
        self.under_cuda_home(target, "/lib64")
    }

    fn under_cuda_home(&self, target: Target, directory: &str) -> (path: Option<String>)
        ensures
            path is Some <==> target == Target::Cuda && self@.cuda_home is Some,
            path is Some ==> path->Some_0@ == self@.cuda_home->Some_0 + directory@,
    {
        match (target, &self.cuda_home) {
            (Target::Cuda, Some(home)) => {
                let mut path = home.clone();
                path.append(directory);
                Some(path)
            },
            _ => None,
        }
    }

    /// The steps of a run, in the order in which they are taken; the first
    /// that fails ends the run. `source_is_file` says whether the source
    /// file was found.
    ///
    /// A run without a source file, or without a target, has no step at
    /// all: it fails before anything is done.
    pub fn run(&self, source_is_file: bool) -> (steps: Result<Vec<Step>, ConfigError>)
        ensures
            match steps {
                Ok(list) => spec_run(self@, source_is_file) == Ok::<_, ConfigError>(list@),
                Err(e) => spec_run(self@, source_is_file) == Err::<Seq<Step>, _>(e),
            },
    {
        if !source_is_file {
            return Err(ConfigError::MissingSource);
        }
        if self.targets.is_empty() {
            return Err(ConfigError::NoTargets);
        }
        let targets = self.targets.targets();
        proof {
            crate::target::lemma_listing(self@.targets);
        }
        let mut steps: Vec<Step> = Vec::new();
        if self.watch {
            steps.push(Step::Watch);
        }
        let ghost head = steps@;
        let mut i: usize = 0;
        while i < targets.len()
            invariant
                i <= targets.len(),
                steps@ == head + spec_build_steps(targets@.take(i as int)),
            decreases targets.len() - i,
        {
            let target = targets[i];
            let ghost before = steps@;
            steps.push(Step::CreateDir(target));
            steps.push(Step::CreateRawDir(target));
            steps.push(Step::Compile(target));
            steps.push(Step::CopyManifest(target));
            steps.push(Step::PrefixHeader(target));
            steps.push(Step::PrefixSource(target));
            steps.push(Step::Bind(target));
            steps.push(Step::CompileC(target));
            steps.push(Step::Link(target));
            proof {
                let done = targets@.take(i as int);
                let next = targets@.take(i + 1);
                assert(steps@ =~= before + spec_target_steps(target));
                assert(spec_build_steps(next) =~= spec_build_steps(done) + spec_target_steps(
                    target,
                )) by {
                    assert forall|k: int| 0 <= k < 9 * next.len() implies spec_build_steps(next)[k]
                        == (spec_build_steps(done) + spec_target_steps(target))[k] by {
                        if k < 9 * done.len() {
                            assert(next[k / 9] == done[k / 9]);
                        } else {
                            assert(k / 9 == i);
                            assert(k % 9 == k - 9 * done.len());
                        }
                    }
                }
            }
            i = i + 1;
        }
        assert(targets@.take(i as int) =~= targets@);
        steps.push(Step::Generate(targets[0]));
        steps.push(Step::Format);
        assert(steps@ =~= spec_steps(self@));
        Ok(steps)
    }
}

/// Why a run cannot start.
#[derive(Debug, Clone, Copy, PartialEq, Eq, Structural)]
pub enum ConfigError {
    /// The Futhark source file does not exist.
    MissingSource,
    /// No target was enabled.
    NoTargets,
}

impl ConfigError {
    pub open spec fn spec_message(self) -> Seq<char> {
        match self {
            ConfigError::MissingSource => "Futhark source file does not exist."@,
            ConfigError::NoTargets => "At least one target must be built."@,
        }
    }

    /// The sentence that reports this error.
    pub fn message(&self) -> (text: &'static str)
        ensures
            text@ == self.spec_message(),
    {
        match self {
            ConfigError::MissingSource => "Futhark source file does not exist.",
            ConfigError::NoTargets => "At least one target must be built.",
        }
    }
}

/// One step of a run. What a step works on lies under the output
/// directory, at the places that [`target_file`] and [`raw_target_file`]
/// name.
#[derive(Debug, Clone, Copy, PartialEq, Eq, Structural)]
pub enum Step {
    /// Have the build run again when a file beside the source changes.
    Watch,
    /// Create the directory of the target.
    CreateDir(Target),
    /// Create the directory that the Futhark compiler writes to.
    CreateRawDir(Target),
    /// Compile the source to a C library for the target.
    Compile(Target),
    /// Copy the manifest from the raw directory to that of the target.
    CopyManifest(Target),
    /// Copy the header and set its symbols apart from those of the other
    /// targets.
    PrefixHeader(Target),
    /// Copy the C source and set its symbols apart from those of the other
    /// targets.
    PrefixSource(Target),
    /// Generate the raw declarations from the header.
    Bind(Target),
    /// Compile the C source to a static library.
    CompileC(Target),
    /// Tell cargo what the library of the target links to.
    Link(Target),
    /// Read the manifest of the target and write the bindings.
    Generate(Target),
    /// Format the bindings.
    Format,
}

/// The steps that build one target, in their order.
pub open spec fn spec_target_steps(target: Target) -> Seq<Step> {
    seq![
        Step::CreateDir(target),
        Step::CreateRawDir(target),
        Step::Compile(target),
        Step::CopyManifest(target),
        Step::PrefixHeader(target),
        Step::PrefixSource(target),
        Step::Bind(target),
        Step::CompileC(target),
        Step::Link(target),
    ]
}

/// The steps that build `targets`, target after target.
pub open spec fn spec_build_steps(targets: Seq<Target>) -> Seq<Step> {
    Seq::new(9 * targets.len(), |k: int| spec_target_steps(targets[k / 9])[k % 9])
}

/// What stands before the first target is built: the watch, where it is
/// on.
pub open spec fn spec_watch_steps(watch: bool) -> Seq<Step> {
    if watch {
        seq![Step::Watch]
    } else {
        Seq::empty()
    }
}

/// The steps of a run with the settings `generator`, which has a target:
/// every target is built, in the order of declaration; then the bindings
/// are generated from the manifest of the first of them, and formatted.
pub open spec fn spec_steps(generator: GeneratorView) -> Seq<Step> {
    let targets = spec_listing(generator.targets);
    spec_watch_steps(generator.watch) + spec_build_steps(targets) + seq![
        Step::Generate(targets[0]),
        Step::Format,
    ]
}

/// Whether a run with the settings `generator` starts: a missing source is
/// found first, then a missing target.
pub open spec fn spec_run(generator: GeneratorView, source_is_file: bool) -> Result<
    Seq<Step>,
    ConfigError,
> {
    if !source_is_file {
        Err(ConfigError::MissingSource)
    } else if generator.targets == Set::<Target>::empty() {
        Err(ConfigError::NoTargets)
    } else {
        Ok(spec_steps(generator))
    }
}

/// The directory, under the output directory, that holds what was built
/// for each target.
pub const TARGET_DIR: &'static str = "futhark";

/// The directory, under the output directory, that the Futhark compiler
/// writes to.
pub const RAW_TARGET_DIR: &'static str = "futhark_raw";

/// The name that the Futhark compiler gives its output, without extension.
pub const LIBRARY: &'static str = "futhark_lib";

/// The file of the manifest.
pub const MANIFEST: &'static str = "futhark_lib.json";

/// The file of the C header.
pub const H_FILE: &'static str = "futhark_lib.h";

/// The file of the C source.
pub const C_FILE: &'static str = "futhark_lib.c";

/// The file of the generated Rust source.
pub const RS_FILE: &'static str = "futhark_lib.rs";

/// The place of `file` in the directory `directory` of `target`, under the
/// output directory.
pub open spec fn spec_file_in(directory: Seq<char>, target: Target, file: Seq<char>) -> Seq<char> {
    directory + "/"@ + target.spec_name() + "/"@ + file
}

fn file_in(directory: &str, target: Target, file: &str) -> (path: String)
    ensures
        path@ == spec_file_in(directory@, target, file@),
{
    let mut path = directory.to_owned();
    path.append("/");
    path.append(target.name());
    path.append("/");
    path.append(file);
    path
}

/// The place of `file` among what was built for `target`, under the output
/// directory.
pub fn target_file(target: Target, file: &str) -> (path: String)
    ensures
        path@ == spec_file_in(TARGET_DIR@, target, file@),
{
    file_in(TARGET_DIR, target, file)
}

/// The place of `file` among what the Futhark compiler wrote for `target`,
/// under the output directory.
pub fn raw_target_file(target: Target, file: &str) -> (path: String)
    ensures
        path@ == spec_file_in(RAW_TARGET_DIR@, target, file@),
{
    file_in(RAW_TARGET_DIR, target, file)
}

/// The place of the bindings under the output directory.
pub fn bindings_file() -> (path: String)
    ensures
        path@ == TARGET_DIR@ + "/"@ + RS_FILE@,
{
    let mut path = TARGET_DIR.to_owned();
    path.append("/");
    path.append(RS_FILE);
    path
}

/// The name of the static library that the C code of `target` is compiled
/// to.
pub fn static_library(target: Target) -> (name: String)
    ensures
        name@ == "futhark-lib-"@ + target.spec_name(),
{
    let mut name = "futhark-lib-".to_owned();
    name.append(target.name());
    name
}

impl Step {
    /// What is reported where this step fails.
    pub open spec fn spec_failure(self) -> Seq<char> {
        match self {
            Step::Watch => "Failed to watch source files for changes."@,
            Step::CreateDir(_) => "Could not create target dir."@,
            Step::CreateRawDir(_) => "Could not create raw target dir."@,
            Step::Compile(_) => "Failed to compile Futhark code."@,
            Step::CopyManifest(_) => "Failed to copy manifest file"@,
            Step::PrefixHeader(_) => "Failed to prefix header file items."@,
            Step::PrefixSource(_) => "Failed to prefix source file items."@,
            Step::Bind(_) => "Failed to generate bindings."@,
            Step::CompileC(_) => "Failed to compile the generated c code."@,
            Step::Link(_) => "Failed to link the target."@,
            Step::Generate(_) => "Failed to generate Rust library."@,
            Step::Format => "Failed to format generated Rust library."@,
        }
    }

    /// The target that this step builds, where it builds one.
    pub open spec fn spec_target(self) -> Option<Target> {
        match self {
            Step::CreateDir(t) => Some(t),
            Step::CreateRawDir(t) => Some(t),
            Step::Compile(t) => Some(t),
            Step::CopyManifest(t) => Some(t),
            Step::PrefixHeader(t) => Some(t),
            Step::PrefixSource(t) => Some(t),
            Step::Bind(t) => Some(t),
            Step::CompileC(t) => Some(t),
            Step::Link(t) => Some(t),
            _ => None,
        }
    }

    /// What is reported where this step fails.
    pub fn failure(&self) -> (text: &'static str)
        ensures
            text@ == self.spec_failure(),
    {
        match self {
            Step::Watch => "Failed to watch source files for changes.",
            Step::CreateDir(_) => "Could not create target dir.",
            Step::CreateRawDir(_) => "Could not create raw target dir.",
            Step::Compile(_) => "Failed to compile Futhark code.",
            Step::CopyManifest(_) => "Failed to copy manifest file",
            Step::PrefixHeader(_) => "Failed to prefix header file items.",
            Step::PrefixSource(_) => "Failed to prefix source file items.",
            Step::Bind(_) => "Failed to generate bindings.",
            Step::CompileC(_) => "Failed to compile the generated c code.",
            Step::Link(_) => "Failed to link the target.",
            Step::Generate(_) => "Failed to generate Rust library.",
            Step::Format => "Failed to format generated Rust library.",
        }
    }

    /// The target that this step builds, where it builds one.
    pub fn target(&self) -> (target: Option<Target>)
        ensures
            target == self.spec_target(),
    {
        match self {
            Step::CreateDir(t) => Some(*t),
            Step::CreateRawDir(t) => Some(*t),
            Step::Compile(t) => Some(*t),
            Step::CopyManifest(t) => Some(*t),
            Step::PrefixHeader(t) => Some(*t),
            Step::PrefixSource(t) => Some(*t),
            Step::Bind(t) => Some(*t),
            Step::CompileC(t) => Some(*t),
            Step::Link(t) => Some(*t),
            _ => None,
        }
    }
}

/// A run that starts has a step, and a run without a target does not
/// start: whatever the other settings are, nothing is done for it.
pub proof fn lemma_no_target_no_step(generator: GeneratorView, source_is_file: bool)
    ensures
        generator.targets == Set::<Target>::empty() ==> spec_run(generator, source_is_file) is Err,
        spec_run(generator, source_is_file) matches Ok(steps) ==> steps.len() >= 11,
{
    crate::target::lemma_listing(generator.targets);
}

/// Every target of the set is built, and the steps of a target stand
/// together, in the order of [`spec_target_steps`].
pub proof fn lemma_every_target_is_built(generator: GeneratorView, target: Target)
    requires
        generator.targets.contains(target),
    ensures
        exists|i: int|
            0 <= i < spec_listing(generator.targets).len() && spec_listing(generator.targets)[i]
                == target && spec_steps(generator).subrange(
                spec_watch_steps(generator.watch).len() + 9 * i,
                spec_watch_steps(generator.watch).len() + 9 * i + 9,
            ) == spec_target_steps(target),
{
    crate::target::lemma_listing(generator.targets);
    let targets = spec_listing(generator.targets);
    assert(targets.contains(target));
    let i = choose|i: int| 0 <= i < targets.len() && targets[i] == target;
    let w = spec_watch_steps(generator.watch).len();
    let part = spec_steps(generator).subrange(w + 9 * i, w + 9 * i + 9);
    assert(part.len() == 9);
    assert forall|k: int| 0 <= k < 9 implies part[k] == spec_target_steps(target)[k] by {
        assert(part[k] == spec_build_steps(targets)[9 * i + k]);
        assert((9 * i + k) / 9 == i);
        assert((9 * i + k) % 9 == k);
    }
    assert(part =~= spec_target_steps(target));
}

} // verus!
