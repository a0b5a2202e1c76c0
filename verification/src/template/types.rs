use vstd::prelude::*;

use crate::manifest::{
    lemma_arrays, lemma_names_determine_type, spec_arrays, ArrayType, Manifest, ManifestView, Type,
};
use crate::text::{concatenate, spec_concatenate, views};

verus! {

/// The opaque types of the bindings: placeholders without size that stand
/// for what Futhark's pointers point to.
#[derive(Debug, Clone)]
pub struct OpaqueTypes {
    pub names: Vec<String>,
}

/// The names of the opaque types of the array types `arrays`, one for one.
pub open spec fn spec_array_type_names(arrays: Seq<ArrayType>) -> Seq<Seq<char>> {
    Seq::new(arrays.len(), |i: int| arrays[i].spec_type_ident())
}

/// The names of the opaque types of `manifest`: the configuration, the
/// context, and each array type once.
pub open spec fn spec_type_names(manifest: ManifestView) -> Seq<Seq<char>> {
    seq!["futhark_context_config"@, "futhark_context"@] + spec_array_type_names(
        spec_arrays(manifest.types),
    )
}

/// The array types that `manifest` speaks of.
pub open spec fn array_types(manifest: ManifestView) -> Set<ArrayType> {
    Set::new(|array: ArrayType| manifest.types.contains(Type::Array(array)))
}

/// Lists the opaque types of `manifest`.
pub fn template(manifest: &Manifest) -> (types: OpaqueTypes)
    ensures
        views(types.names@) == spec_type_names(manifest@),
{
    let arrays = manifest.arrays();
    let mut names = vec!["futhark_context_config".to_owned(), "futhark_context".to_owned()];
    let mut i: usize = 0;
    while i < arrays.len()
        invariant
            i <= arrays.len(),
            names@.len() == 2 + i,
            names@[0]@ == "futhark_context_config"@,
            names@[1]@ == "futhark_context"@,
            forall|j: int| 0 <= j < i ==> (#[trigger] names@[2 + j])@ == arrays@[j].spec_type_ident(),
        decreases arrays.len() - i,
    {
        names.push(arrays[i].type_ident());
        i = i + 1;
    }
    proof {
        let got = views(names@);
        let want = spec_type_names(manifest@);
        assert(got.len() == want.len());
        assert forall|j: int| 0 <= j < got.len() implies got[j] == want[j] by {
            if j >= 2 {
                assert(names@[2 + (j - 2)]@ == arrays@[j - 2].spec_type_ident());
            }
        }
        assert(got =~= want);
    }
    OpaqueTypes { names }
}

/// The declaration of the opaque type `name`: a struct without size that
/// only pointers refer to.
pub open spec fn spec_struct_text(name: Seq<char>) -> Seq<char> {
    "#[repr(C)]\n#[derive(Debug, Copy, Clone)]\npub struct "@ + name
        + " {\n    _unused: [u8; 0],\n}\n"@
}

/// Declares the opaque type `name`.
pub fn struct_template(name: &str) -> (text: String)
    ensures
        text@ == spec_struct_text(name@),
{
    let mut text = "#[repr(C)]\n#[derive(Debug, Copy, Clone)]\npub struct ".to_owned();
    text.append(name);
    text.append(" {\n    _unused: [u8; 0],\n}\n");
    text
}

/// The declarations of the opaque types `names`, one for one.
pub open spec fn spec_struct_texts(names: Seq<Seq<char>>) -> Seq<Seq<char>> {
    Seq::new(names.len(), |i: int| spec_struct_text(names[i]))
}

/// The module of the opaque types `names`.
pub open spec fn spec_types_text(names: Seq<Seq<char>>) -> Seq<char> {
    "#[allow(non_camel_case_types)]\nmod types {\n"@ + spec_concatenate(spec_struct_texts(names))
        + "}\n"@
}

impl OpaqueTypes {
    /// Writes the module of the opaque types as Rust source.
    pub fn render(&self) -> (text: String)
        ensures
            text@ == spec_types_text(views(self.names@)),
    {
        let mut structs: Vec<String> = Vec::new();
        let mut i: usize = 0;
        while i < self.names.len()
            invariant
                i <= self.names.len(),
                structs@.len() == i,
                forall|j: int|
                    0 <= j < i ==> (#[trigger] structs@[j])@ == spec_struct_text(self.names@[j]@),
            decreases self.names.len() - i,
        {
            structs.push(struct_template(self.names[i].as_str()));
            i = i + 1;
        }
        assert(views(structs@) =~= spec_struct_texts(views(self.names@)));
        let mut text = "#[allow(non_camel_case_types)]\nmod types {\n".to_owned();
        text.append(concatenate(&structs).as_str());
        text.append("}\n");
        text
    }
}

/// A manifest that speaks of N different array types gets N + 2 opaque
/// types, and no two of them share a name, however often a type occurs in
/// the manifest.
pub proof fn lemma_opaque_types_once(manifest: ManifestView)
    ensures
        array_types(manifest).finite(),
        spec_type_names(manifest).len() == array_types(manifest).len() + 2,
        spec_type_names(manifest).no_duplicates(),
{
    let arrays = spec_arrays(manifest.types);
    let names = spec_type_names(manifest);
    lemma_arrays(manifest.types);
    assert(arrays.to_set() =~= array_types(manifest)) by {
        assert forall|a: ArrayType| arrays.to_set().contains(a) == array_types(manifest).contains(
            a,
        ) by {
            assert(arrays.to_set().contains(a) == arrays.contains(a));
        }
    }
    arrays.unique_seq_to_set();
    vstd::seq_lib::seq_to_set_is_finite(arrays);
    reveal_strlit("futhark_context_config");
    reveal_strlit("futhark_context");
    reveal_strlit("futhark_");
    reveal_strlit("i8");
    reveal_strlit("i16");
    reveal_strlit("i32");
    reveal_strlit("i64");
    reveal_strlit("u8");
    reveal_strlit("u16");
    reveal_strlit("u32");
    reveal_strlit("u64");
    reveal_strlit("f16");
    reveal_strlit("f32");
    reveal_strlit("f64");
    assert(names[0].len() != names[1].len());
    assert forall|i: int, j: int| 0 <= i < names.len() && 0 <= j < names.len() && i != j implies names[i]
        != names[j] by {
        if i >= 2 && j >= 2 {
            lemma_names_determine_type(arrays[i - 2], arrays[j - 2]);
        } else if i >= 2 {
            let a = arrays[i - 2];
            assert(names[i] == a.spec_type_ident());
            assert(names[i][8] == a.elements.spec_futhark_name()[0]);
            assert(names[j][8] == 'c');
        } else if j >= 2 {
            let a = arrays[j - 2];
            assert(names[j] == a.spec_type_ident());
            assert(names[j][8] == a.elements.spec_futhark_name()[0]);
            assert(names[i][8] == 'c');
        }
    }
}

} // verus!
