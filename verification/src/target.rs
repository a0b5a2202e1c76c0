//! The backends that Futhark can compile a library for.

use vstd::prelude::*;

verus! {

/// Futhark targets.
#[derive(Debug, Clone, Copy, PartialEq, Eq, Structural)]
pub enum Target {
    /// Futhark `c` target. Needs nothing.
    C,
    /// Futhark `multicore` target. Needs nothing.
    MultiCore,
    /// Futhark `opencl` target. Needs the OpenCL headers and loader.
    OpenCL,
    /// Futhark `cuda` target. Needs the Nvidia CUDA SDK.
    Cuda,
    /// Futhark `ispc` target. Needs the Intel ISPC SDK.
    ISPC,
}

impl Target {
    /// The position of this target among all targets.
    pub open spec fn index(self) -> int {
        match self {
            Target::C => 0,
            Target::MultiCore => 1,
            Target::OpenCL => 2,
            Target::Cuda => 3,
            Target::ISPC => 4,
        }
    }

    /// Every target, in the order of declaration.
    pub open spec fn spec_all() -> Seq<Target> {
        seq![Target::C, Target::MultiCore, Target::OpenCL, Target::Cuda, Target::ISPC]
    }

    /// The name of the marker type of this backend in the bindings.
    pub open spec fn spec_struct_name(self) -> Seq<char> {
        match self {
            Target::C => "C"@,
            Target::MultiCore => "MultiCore"@,
            Target::OpenCL => "OpenCL"@,
            Target::Cuda => "Cuda"@,
            Target::ISPC => "Ispc"@,
        }
    }

    /// The name of this target on Futhark's command line; it also names the
    /// target's directory, module and symbols.
    pub open spec fn spec_name(self) -> Seq<char> {
        match self {
            Target::C => "c"@,
            Target::MultiCore => "multicore"@,
            Target::OpenCL => "opencl"@,
            Target::Cuda => "cuda"@,
            Target::ISPC => "ispc"@,
        }
    }

    /// What the symbols of this target begin with once they were set apart
    /// from those of the other targets.
    pub open spec fn spec_symbol_prefix(self) -> Seq<char> {
        "futhark_"@ + self.spec_name() + "_"@
    }

    /// The native libraries that a library built for this target links to.
    pub open spec fn spec_link_libraries(self) -> Seq<Seq<char>> {
        match self {
            Target::OpenCL => seq!["OpenCL"@],
            Target::Cuda => seq!["cuda"@, "cudart"@, "nvrtc"@],
            _ => Seq::empty(),
        }
    }

    /// Lists every target.
    pub fn all() -> (all: Vec<Target>)
        ensures
            all@ == Self::spec_all(),
            forall|t: Target| all@[t.index()] == t,
    {
        let all = vec![Target::C, Target::MultiCore, Target::OpenCL, Target::Cuda, Target::ISPC];
        assert(all@ =~= Self::spec_all());
        all
    }

    pub fn struct_name(&self) -> (name: &'static str)
        ensures
            name@ == self.spec_struct_name(),
    {
        match self {
            Target::C => "C",
            Target::MultiCore => "MultiCore",
            Target::OpenCL => "OpenCL",
            Target::Cuda => "Cuda",
            Target::ISPC => "Ispc",
        }
    }

    pub fn name(&self) -> (name: &'static str)
        ensures
            name@ == self.spec_name(),
    {
        match self {
            Target::C => "c",
            Target::MultiCore => "multicore",
            Target::OpenCL => "opencl",
            Target::Cuda => "cuda",
            Target::ISPC => "ispc",
        }
    }

    /// What the symbols of this target begin with once they were set apart
    /// from those of the other targets.
    pub fn symbol_prefix(&self) -> (prefix: String)
        ensures
            prefix@ == self.spec_symbol_prefix(),
    {
        let mut prefix = "futhark_".to_owned();
        prefix.append(self.name());
        prefix.append("_");
        prefix
    }

    /// The native libraries that a library built for this target links to.
    pub fn link_libraries(&self) -> (libraries: Vec<&'static str>)
        ensures
            libraries@.len() == self.spec_link_libraries().len(),
            forall|i: int|
                0 <= i < libraries@.len() ==> (#[trigger] libraries@[i])@
                    == self.spec_link_libraries()[i],
    {
        match self {
            Target::OpenCL => vec!["OpenCL"],
            Target::Cuda => vec!["cuda", "cudart", "nvrtc"],
            _ => Vec::new(),
        }
    }
}

/// A set of targets.
#[derive(Debug, Clone, Copy, PartialEq, Eq, Structural)]
pub struct TargetSet {
    c: bool,
    multicore: bool,
    opencl: bool,
    cuda: bool,
    ispc: bool,
}

impl View for TargetSet {
    type V = Set<Target>;

    closed spec fn view(&self) -> Set<Target> {
        Set::new(|t: Target| self.has(t))
    }
}

impl TargetSet {
    spec fn has(self, target: Target) -> bool {
        match target {
            Target::C => self.c,
            Target::MultiCore => self.multicore,
            Target::OpenCL => self.opencl,
            Target::Cuda => self.cuda,
            Target::ISPC => self.ispc,
        }
    }

    /// The set without targets.
    pub fn empty() -> (set: TargetSet)
        ensures
            set@ == Set::<Target>::empty(),
    {
        let set = TargetSet { c: false, multicore: false, opencl: false, cuda: false, ispc: false };
        assert(set@ =~= Set::<Target>::empty());
        set
    }

    /// The set of every target.
    pub fn all() -> (set: TargetSet)
        ensures
            forall|t: Target| set@.contains(t),
    {
        TargetSet { c: true, multicore: true, opencl: true, cuda: true, ispc: true }
    }

    /// This set with `target` added to it.
    pub fn with(self, target: Target) -> (set: TargetSet)
        ensures
            set@ == self@.insert(target),
    {
        let mut set = self;
        match target {
            Target::C => {
                set.c = true;
            },
            Target::MultiCore => {
                set.multicore = true;
            },
            Target::OpenCL => {
                set.opencl = true;
            },
            Target::Cuda => {
                set.cuda = true;
            },
            Target::ISPC => {
                set.ispc = true;
            },
        }
        assert(set@ =~= self@.insert(target)) by {
            assert forall|t: Target| set@.contains(t) == self@.insert(target).contains(t) by {
                assert(set@.contains(t) == set.has(t));
                assert(self@.contains(t) == self.has(t));
            }
        }
        set
    }

    /// The targets that are in this set or in `other`.
    pub fn union(self, other: TargetSet) -> (set: TargetSet)
        ensures
            set@ == self@.union(other@),
    {
        let set = TargetSet {
            c: self.c || other.c,
            multicore: self.multicore || other.multicore,
            opencl: self.opencl || other.opencl,
            cuda: self.cuda || other.cuda,
            ispc: self.ispc || other.ispc,
        };
        assert(set@ =~= self@.union(other@)) by {
            assert forall|t: Target| set@.contains(t) == self@.union(other@).contains(t) by {
                assert(set@.contains(t) == set.has(t));
                assert(self@.contains(t) == self.has(t));
                assert(other@.contains(t) == other.has(t));
            }
        }
        set
    }

    /// Whether `target` is in this set.
    pub fn contains(&self, target: Target) -> (found: bool)
        ensures
            found == self@.contains(target),
    {
        match target {
            Target::C => self.c,
            Target::MultiCore => self.multicore,
            Target::OpenCL => self.opencl,
            Target::Cuda => self.cuda,
            Target::ISPC => self.ispc,
        }
    }

    /// Whether no target is in this set.
    pub fn is_empty(&self) -> (empty: bool)
        ensures
            empty == (self@ == Set::<Target>::empty()),
    {
        let empty = !(self.c || self.multicore || self.opencl || self.cuda || self.ispc);
        proof {
            if empty {
                assert(self@ =~= Set::<Target>::empty());
            } else {
                assert(self.has(Target::C) || self.has(Target::MultiCore) || self.has(
                    Target::OpenCL,
                ) || self.has(Target::Cuda) || self.has(Target::ISPC));
                assert(self@.contains(Target::C) || self@.contains(Target::MultiCore)
                    || self@.contains(Target::OpenCL) || self@.contains(Target::Cuda)
                    || self@.contains(Target::ISPC));
            }
        }
        empty
    }

    /// The targets of this set in the order of their declaration, each once.
    pub fn targets(&self) -> (list: Vec<Target>)
        ensures
            list@ == spec_listing(self@),
    {
        let all = Target::all();
        let mut list: Vec<Target> = Vec::new();
        let mut i: usize = 0;
        while i < all.len()
            invariant
                i <= all.len(),
                all@ == Target::spec_all(),
                list@ == spec_listing_upto(self@, i as int),
            decreases all.len() - i,
        {
            if self.contains(all[i]) {
                list.push(all[i]);
            }
            assert(list@ =~= spec_listing_upto(self@, i + 1));
            i = i + 1;
        }
        list
    }
}

/// The one target `target` where it is in `set`, nothing where it is not.
pub open spec fn pick(set: Set<Target>, target: Target) -> Seq<Target> {
    if set.contains(target) {
        seq![target]
    } else {
        Seq::empty()
    }
}

/// The targets of `set` among the first `n` targets, in the order of their
/// declaration.
pub open spec fn spec_listing_upto(set: Set<Target>, n: int) -> Seq<Target>
    decreases n,
{
    if n <= 0 || n > 5 {
        Seq::empty()
    } else {
        spec_listing_upto(set, n - 1) + pick(set, Target::spec_all()[n - 1])
    }
}

/// The targets of `set` in the order of their declaration, each once.
pub open spec fn spec_listing(set: Set<Target>) -> Seq<Target> {
    spec_listing_upto(set, 5)
}

proof fn lemma_listing_upto(set: Set<Target>, n: int)
    requires
        0 <= n <= 5,
    ensures
        forall|t: Target| #[trigger]
            spec_listing_upto(set, n).contains(t) <==> set.contains(t) && t.index() < n,
        forall|i: int, j: int|
            0 <= i < j < spec_listing_upto(set, n).len() ==> (#[trigger] spec_listing_upto(
                set,
                n,
            )[i]).index() < (#[trigger] spec_listing_upto(set, n)[j]).index(),
    decreases n,
{
    let now = spec_listing_upto(set, n);
    if n > 0 {
        lemma_listing_upto(set, n - 1);
        let before = spec_listing_upto(set, n - 1);
        let last = Target::spec_all()[n - 1];
        assert(last.index() == n - 1);
        assert(now == before + pick(set, last));
        assert forall|i: int| 0 <= i < before.len() implies now[i] == before[i]
            && before[i].index() < n - 1 by {
            let t = before[i];
            assert(before[i] == t && 0 <= i < before.len());
            assert(before.contains(t));
            assert(set.contains(t) && t.index() < n - 1);
            assert(now[i] == before[i]);
        }
        assert forall|t: Target| now.contains(t) <==> set.contains(t) && t.index() < n by {
            if now.contains(t) {
                let i = choose|i: int| 0 <= i < now.len() && now[i] == t;
                if i < before.len() {
                    assert(before[i] == t);
                    assert(before.contains(t));
                } else {
                    assert(pick(set, last).len() == 1);
                    assert(now[i] == pick(set, last)[i - before.len()]);
                    assert(t == last);
                }
            }
            if set.contains(t) && t.index() < n {
                if t.index() < n - 1 {
                    assert(before.contains(t));
                    let i = choose|i: int| 0 <= i < before.len() && before[i] == t;
                    assert(now[i] == t);
                } else {
                    assert(t == last);
                    assert(pick(set, last) == seq![last]);
                    assert(now[before.len() as int] == t);
                }
            }
        }
        assert forall|i: int, j: int| 0 <= i < j < now.len() implies (#[trigger] now[i]).index()
            < (#[trigger] now[j]).index() by {
            if j < before.len() {
                assert(now[i] == before[i] && now[j] == before[j]);
            } else {
                assert(pick(set, last).len() == 1);
                assert(now[j] == pick(set, last)[j - before.len()]);
                assert(now[j] == last);
                assert(now[i] == before[i]);
            }
        }
    } else {
        assert(now.len() == 0);
        assert forall|t: Target| !now.contains(t) by {
            if now.contains(t) {
                let i = choose|i: int| 0 <= i < now.len() && now[i] == t;
            }
        }
    }
}

/// A listing holds exactly the targets of its set, each once and in the
/// order of declaration; it is empty only for the empty set.
pub proof fn lemma_listing(set: Set<Target>)
    ensures
        forall|t: Target| #[trigger] spec_listing(set).contains(t) <==> set.contains(t),
        forall|i: int, j: int|
            0 <= i < j < spec_listing(set).len() ==> (#[trigger] spec_listing(set)[i]).index() < (
            #[trigger] spec_listing(set)[j]).index(),
        spec_listing(set).no_duplicates(),
        spec_listing(set).len() == 0 <==> set == Set::<Target>::empty(),
{
    let list = spec_listing(set);
    lemma_listing_upto(set, 5);
    assert forall|t: Target| list.contains(t) <==> set.contains(t) by {
        assert(t.index() < 5);
    }
    if list.len() == 0 {
        assert forall|t: Target| !set.contains(t) by {
            if set.contains(t) {
                assert(list.contains(t));
                let i = choose|i: int| 0 <= i < list.len() && list[i] == t;
            }
        }
        assert(set =~= Set::<Target>::empty());
    } else {
        assert(list.contains(list[0]));
        assert(set.contains(list[0]));
    }
}

/// The prefixes of two different targets differ in a place that both have:
/// whatever follows them, the two symbols are different.
pub proof fn lemma_prefixes_keep_symbols_apart(
    a: Target,
    b: Target,
    symbol_a: Seq<char>,
    symbol_b: Seq<char>,
)
    requires
        a != b,
    ensures
        a.spec_symbol_prefix() + symbol_a != b.spec_symbol_prefix() + symbol_b,
{
    reveal_strlit("futhark_");
    reveal_strlit("_");
    reveal_strlit("c");
    reveal_strlit("multicore");
    reveal_strlit("opencl");
    reveal_strlit("cuda");
    reveal_strlit("ispc");
    let x = a.spec_symbol_prefix() + symbol_a;
    let y = b.spec_symbol_prefix() + symbol_b;
    assert(x[8] == a.spec_symbol_prefix()[8] && x[9] == a.spec_symbol_prefix()[9]);
    assert(y[8] == b.spec_symbol_prefix()[8] && y[9] == b.spec_symbol_prefix()[9]);
    assert(a.spec_symbol_prefix()[8] == a.spec_name()[0]);
    assert(b.spec_symbol_prefix()[8] == b.spec_name()[0]);
    assert(a.spec_symbol_prefix()[9] == (a.spec_name() + "_"@)[1]);
    assert(b.spec_symbol_prefix()[9] == (b.spec_name() + "_"@)[1]);
    assert(x[8] != y[8] || x[9] != y[9]);
}

} // verus!
