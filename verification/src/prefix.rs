//! The pass that sets the symbols of the targets apart: every target's C
//! code declares the same names, so each gets its own prefix before the
//! targets are linked into one library, and loses it again where the raw
//! declarations are generated.

use vstd::prelude::*;

verus! {

/// `text` with every match of `from` replaced by `to`, as `str::replace`
/// of std computes it.
pub uninterp spec fn replaced(text: Seq<char>, from: Seq<char>, to: Seq<char>) -> Seq<char>;

/// `str::replace` of std: a new string in which every match of `from` is
/// replaced by `to`.
#[verifier::external_body]
fn replace(text: &str, from: &str, to: &str) -> (result: String)
    ensures
        result@ == replaced(text@, from@, to@),
{
    text.replace(from, to)
}

/// Whether `pattern` stands somewhere in `text`.
pub open spec fn spec_contains(text: Seq<char>, pattern: Seq<char>) -> bool {
    exists|i: int|
        0 <= i <= text.len() - pattern.len() && #[trigger] text.subrange(i, i + pattern.len())
            == pattern
}

/// `str::contains` of std with a string as the pattern: whether the pattern
/// matches a part of the text.
#[verifier::external_body]
fn contains(text: &str, pattern: &str) -> (found: bool)
    ensures
        found == spec_contains(text@, pattern@),
{
    text.contains(pattern)
}

/// A line of C code with the names of Futhark's memory blocks, of its
/// reallocation error and of everything that begins with `futhark_` set
/// under `prefix`, in this order.
pub open spec fn spec_prefix_line(prefix: Seq<char>, line: Seq<char>) -> Seq<char> {
    replaced(
        replaced(
            replaced(line, "memblock_"@, prefix + "_memblock_"@),
            "lexical_realloc_error"@,
            prefix + "_lexical_realloc_error"@,
        ),
        "futhark_"@,
        prefix,
    )
}

/// Sets the names of one line of C code under `prefix`.
pub fn prefix_line(prefix: &str, line: &str) -> (prefixed: String)
    ensures
        prefixed@ == spec_prefix_line(prefix@, line@),
{
    let mut memblock = prefix.to_owned();
    memblock.append("_memblock_");
    let mut realloc = prefix.to_owned();
    realloc.append("_lexical_realloc_error");
    let first = replace(line, "memblock_", memblock.as_str());
    let second = replace(first.as_str(), "lexical_realloc_error", realloc.as_str());
    replace(second.as_str(), "futhark_", prefix)
}

/// Sets the names of every line of a C file under `prefix`. The lines stay
/// as many as they were, and in their order.
pub fn prefix_items(prefix: &str, lines: &Vec<String>) -> (prefixed: Vec<String>)
    ensures
        prefixed@.len() == lines@.len(),
        forall|i: int|
            0 <= i < lines@.len() ==> (#[trigger] prefixed@[i])@ == spec_prefix_line(
                prefix@,
                lines@[i]@,
            ),
{
    let mut prefixed: Vec<String> = Vec::new();
    let mut i: usize = 0;
    while i < lines.len()
        invariant
            i <= lines.len(),
            prefixed@.len() == i,
            forall|j: int|
                0 <= j < i ==> (#[trigger] prefixed@[j])@ == spec_prefix_line(
                    prefix@,
                    lines@[j]@,
                ),
        decreases lines.len() - i,
    {
        prefixed.push(prefix_line(prefix, lines[i].as_str()));
        i = i + 1;
    }
    prefixed
}

/// Takes the prefix of a target off the names of the raw declarations, so
/// that every backend declares the names that Futhark gave.
#[derive(Debug, Clone)]
pub struct PrefixRemover {
    pub prefix: String,
}

impl PrefixRemover {
    pub fn new(prefix: &str) -> (remover: PrefixRemover)
        ensures
            remover.prefix@ == prefix@,
    {
        PrefixRemover { prefix: prefix.to_owned() }
    }

    /// The name under which an item of the header is declared: a name that
    /// holds the prefix gets `futhark_` in its place, any other name stays
    /// as it is, which `None` says.
    pub fn item_name(&self, prefixed_name: &str) -> (name: Option<String>)
        ensures
            name is Some <==> spec_contains(prefixed_name@, self.prefix@),
            name is Some ==> name->Some_0@ == replaced(
                prefixed_name@,
                self.prefix@,
                "futhark_"@,
            ),
    {
        if contains(prefixed_name, self.prefix.as_str()) {
            Some(replace(prefixed_name, self.prefix.as_str(), "futhark_"))
        } else {
            None
        }
    }
}

} // verus!
