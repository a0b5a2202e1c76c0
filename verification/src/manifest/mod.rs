//! Typed model of a Futhark manifest.

use vstd::prelude::*;

mod array_type;
mod entry_point;
mod error;
mod laws;
mod loader;
mod value_type;

pub use array_type::{
    lemma_array_names_are_no_scalar_names, lemma_names_determine_type,
    lemma_names_of_one_type_differ, ArrayType,
};
pub use entry_point::{EntryPoint, EntryPointView};
pub use error::{Field, ManifestError, ManifestErrorView};
pub use laws::{
    lemma_builtin_names, lemma_dangling_reference_fails, lemma_dangling_type_is_rejected,
    lemma_declare, lemma_entry_points_in_order, lemma_manifest_is_closed, lemma_params_in_order,
    lemma_position_of, lemma_types_all_declared, lemma_types_are_bound, lemma_unsupported_kind,
    lemma_unsupported_kind_fails, resolves_to, unique,
};
pub use loader::{
    builtin_names, declare, from_document, lemma_position, load, load_array, load_entry_point,
    load_type, lookup, missing, names_of, plain, position, spec_array, spec_entry_point,
    spec_entry_points, spec_load, spec_manifest, spec_param_list, spec_params, spec_table,
    spec_type, spec_types, text_field, types_of, viewed, Names,
};
pub use value_type::{lemma_names_differ, ValueType};

verus! {

/// A type that a manifest can speak of.
#[derive(Debug, Clone, Copy, PartialEq, Eq, Structural)]
pub enum Type {
    Value(ValueType),
    Array(ArrayType),
}

/// A named parameter of an entry point.
#[derive(Debug, Clone)]
pub struct Argument {
    pub name: String,
    pub type_: Type,
}

/// What a Futhark library exports: its entry points, and every type that they
/// may speak of.
#[derive(Debug, Clone)]
pub struct Manifest {
    pub entry_points: Vec<EntryPoint>,
    pub types: Vec<Type>,
}

/// A [`Manifest`] as a value of mathematics.
pub struct ManifestView {
    pub entry_points: Seq<EntryPointView>,
    pub types: Seq<Type>,
}

impl ManifestView {
    /// Whether every type that an entry point takes or returns is among
    /// the types of the manifest.
    pub open spec fn closed(self) -> bool {
        &&& forall|i: int, j: int|
            0 <= i < self.entry_points.len() && 0 <= j < self.entry_points[i].inputs.len()
                ==> self.types.contains(#[trigger] self.entry_points[i].inputs[j])
        &&& forall|i: int, j: int|
            0 <= i < self.entry_points.len() && 0 <= j < self.entry_points[i].outputs.len()
                ==> self.types.contains(#[trigger] self.entry_points[i].outputs[j])
    }
}

impl View for Manifest {
    type V = ManifestView;

    open spec fn view(&self) -> ManifestView {
        ManifestView {
            entry_points: Seq::new(self.entry_points@.len(), |i: int| self.entry_points@[i]@),
            types: self.types@,
        }
    }
}

/// The array types among `types`, each once, in the order in which they
/// first occur.
pub open spec fn spec_arrays(types: Seq<Type>) -> Seq<ArrayType>
    decreases types.len(),
{
    if types.len() == 0 {
        Seq::empty()
    } else {
        let before = spec_arrays(types.drop_last());
        match types.last() {
            Type::Array(array) => if before.contains(array) {
                before
            } else {
                before.push(array)
            },
            Type::Value(_) => before,
        }
    }
}

/// [`spec_arrays`] holds no array type twice, and holds exactly the array
/// types of the list.
pub proof fn lemma_arrays(types: Seq<Type>)
    ensures
        spec_arrays(types).no_duplicates(),
        forall|array: ArrayType| #[trigger]
            spec_arrays(types).contains(array) <==> types.contains(Type::Array(array)),
    decreases types.len(),
{
    let now = spec_arrays(types);
    if types.len() == 0 {
        assert forall|array: ArrayType| !(#[trigger] now.contains(array)) by {
            if now.contains(array) {
                let i = choose|i: int| 0 <= i < now.len() && now[i] == array;
            }
        }
        assert forall|array: ArrayType| !types.contains(Type::Array(array)) by {
            if types.contains(Type::Array(array)) {
                let i = choose|i: int| 0 <= i < types.len() && types[i] == Type::Array(array);
            }
        }
    } else {
        let rest = types.drop_last();
        let before = spec_arrays(rest);
        lemma_arrays(rest);
        assert forall|array: ArrayType| #[trigger]
            now.contains(array) <==> types.contains(Type::Array(array)) by {
            if now.contains(array) {
                let i = choose|i: int| 0 <= i < now.len() && now[i] == array;
                if i < before.len() && before[i] == array {
                    assert(before.contains(array));
                    let j = choose|j: int| 0 <= j < rest.len() && rest[j] == Type::Array(array);
                    assert(types[j] == Type::Array(array));
                } else {
                    assert(types.last() == Type::Array(array));
                    assert(types[types.len() - 1] == Type::Array(array));
                }
            }
            if types.contains(Type::Array(array)) {
                let j = choose|j: int| 0 <= j < types.len() && types[j] == Type::Array(array);
                if j < rest.len() {
                    assert(rest[j] == Type::Array(array));
                    assert(rest.contains(Type::Array(array)));
                    assert(before.contains(array));
                    let i = choose|i: int| 0 <= i < before.len() && before[i] == array;
                    assert(now[i] == array);
                } else {
                    if before.contains(array) {
                    } else {
                        assert(now[before.len() as int] == array);
                    }
                }
            }
        }
        assert forall|i: int, j: int| 0 <= i < now.len() && 0 <= j < now.len() && i != j implies now[i]
            != now[j] by {
            if now.len() > before.len() {
                if i == before.len() {
                    assert(before[j] == now[j]);
                    assert(before.contains(now[j]));
                } else if j == before.len() {
                    assert(before[i] == now[i]);
                    assert(before.contains(now[i]));
                }
            }
        }
    }
}

impl Manifest {
    /// The array types of this manifest, each once.
    pub fn arrays(&self) -> (arrays: Vec<ArrayType>)
        ensures
            arrays@ == spec_arrays(self.types@),
    {
        let mut arrays: Vec<ArrayType> = Vec::new();
        let mut i: usize = 0;
        assert(self.types@.take(0) =~= Seq::<Type>::empty());
        while i < self.types.len()
            invariant
                i <= self.types.len(),
                arrays@ == spec_arrays(self.types@.take(i as int)),
            decreases self.types.len() - i,
        {
            assert(self.types@.take(i + 1).drop_last() =~= self.types@.take(i as int));
            assert(self.types@.take(i + 1).last() == self.types@[i as int]);
            match self.types[i] {
                Type::Array(array) => {
                    let mut known = false;
                    let mut j: usize = 0;
                    while j < arrays.len()
                        invariant
                            j <= arrays.len(),
                            known == exists|k: int| 0 <= k < j && arrays@[k] == array,
                        decreases arrays.len() - j,
                    {
                        if arrays[j] == array {
                            known = true;
                        }
                        j = j + 1;
                    }
                    if !known {
                        arrays.push(array);
                    }
                },
                Type::Value(_) => {},
            }
            i = i + 1;
        }
        assert(self.types@.take(i as int) =~= self.types@);
        arrays
    }
}

} // verus!
