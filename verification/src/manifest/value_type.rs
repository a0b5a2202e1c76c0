use vstd::prelude::*;

use crate::manifest::error::{ManifestError, ManifestErrorView};
use crate::text::same_text;

verus! {

/// Scalar types that a Futhark manifest can name.
#[allow(non_camel_case_types)]
#[derive(Debug, Clone, Copy, PartialEq, Eq, Structural)]
pub enum ValueType {
    i8,
    i16,
    i32,
    i64,
    u8,
    u16,
    u32,
    u64,
    F16,
    F32,
    F64,
}

impl ValueType {
    /// Every scalar type, in the order of declaration.
    pub open spec fn spec_variants() -> Seq<ValueType> {
        seq![
            ValueType::i8,
            ValueType::i16,
            ValueType::i32,
            ValueType::i64,
            ValueType::u8,
            ValueType::u16,
            ValueType::u32,
            ValueType::u64,
            ValueType::F16,
            ValueType::F32,
            ValueType::F64,
        ]
    }

    /// The position of this type in [`ValueType::spec_variants`].
    pub open spec fn index(self) -> int {
        match self {
            ValueType::i8 => 0,
            ValueType::i16 => 1,
            ValueType::i32 => 2,
            ValueType::i64 => 3,
            ValueType::u8 => 4,
            ValueType::u16 => 5,
            ValueType::u32 => 6,
            ValueType::u64 => 7,
            ValueType::F16 => 8,
            ValueType::F32 => 9,
            ValueType::F64 => 10,
        }
    }

    /// The name of this type in a manifest and in Futhark's C symbols.
    pub open spec fn spec_futhark_name(self) -> Seq<char> {
        match self {
            ValueType::i8 => "i8"@,
            ValueType::i16 => "i16"@,
            ValueType::i32 => "i32"@,
            ValueType::i64 => "i64"@,
            ValueType::u8 => "u8"@,
            ValueType::u16 => "u16"@,
            ValueType::u32 => "u32"@,
            ValueType::u64 => "u64"@,
            ValueType::F16 => "f16"@,
            ValueType::F32 => "f32"@,
            ValueType::F64 => "f64"@,
        }
    }

    /// The Rust type that stands for this type in the bindings. Rust has no
    /// stable half-precision float, so a half is widened to a single.
    pub open spec fn spec_rust_name(self) -> Seq<char> {
        match self {
            ValueType::F16 => "f32"@,
            other => other.spec_futhark_name(),
        }
    }

    /// The manifest name in upper case, as it stands in the names of the
    /// array wrappers.
    pub open spec fn spec_upper_name(self) -> Seq<char> {
        match self {
            ValueType::i8 => "I8"@,
            ValueType::i16 => "I16"@,
            ValueType::i32 => "I32"@,
            ValueType::i64 => "I64"@,
            ValueType::u8 => "U8"@,
            ValueType::u16 => "U16"@,
            ValueType::u32 => "U32"@,
            ValueType::u64 => "U64"@,
            ValueType::F16 => "F16"@,
            ValueType::F32 => "F32"@,
            ValueType::F64 => "F64"@,
        }
    }

    /// Lists every scalar type.
    pub fn variants() -> (all: Vec<ValueType>)
        ensures
            all@ == Self::spec_variants(),
            forall|v: ValueType| all@[v.index()] == v,
    {
        let all = vec![
            ValueType::i8,
            ValueType::i16,
            ValueType::i32,
            ValueType::i64,
            ValueType::u8,
            ValueType::u16,
            ValueType::u32,
            ValueType::u64,
            ValueType::F16,
            ValueType::F32,
            ValueType::F64,
        ];
        assert(all@ =~= Self::spec_variants());
        all
    }

    pub fn rust_name(&self) -> (name: &'static str)
        ensures
            name@ == self.spec_rust_name(),
    {
        match self {
            ValueType::i8 => "i8",
            ValueType::i16 => "i16",
            ValueType::i32 => "i32",
            ValueType::i64 => "i64",
            ValueType::u8 => "u8",
            ValueType::u16 => "u16",
            ValueType::u32 => "u32",
            ValueType::u64 => "u64",
            ValueType::F16 => "f32",
            ValueType::F32 => "f32",
            ValueType::F64 => "f64",
        }
    }

    pub fn futhark_name(&self) -> (name: &'static str)
        ensures
            name@ == self.spec_futhark_name(),
    {
        match self {
            ValueType::i8 => "i8",
            ValueType::i16 => "i16",
            ValueType::i32 => "i32",
            ValueType::i64 => "i64",
            ValueType::u8 => "u8",
            ValueType::u16 => "u16",
            ValueType::u32 => "u32",
            ValueType::u64 => "u64",
            ValueType::F16 => "f16",
            ValueType::F32 => "f32",
            ValueType::F64 => "f64",
        }
    }

    pub(crate) fn upper_name(&self) -> (name: &'static str)
        ensures
            name@ == self.spec_upper_name(),
    {
        match self {
            ValueType::i8 => "I8",
            ValueType::i16 => "I16",
            ValueType::i32 => "I32",
            ValueType::i64 => "I64",
            ValueType::u8 => "U8",
            ValueType::u16 => "U16",
            ValueType::u32 => "U32",
            ValueType::u64 => "U64",
            ValueType::F16 => "F16",
            ValueType::F32 => "F32",
            ValueType::F64 => "F64",
        }
    }

    /// The scalar type that a manifest calls `name`, if there is one.
    pub open spec fn spec_from_manifest(name: Seq<char>) -> Option<ValueType> {
        if exists|v: ValueType| v.spec_futhark_name() == name {
            Some(choose|v: ValueType| v.spec_futhark_name() == name)
        } else {
            None
        }
    }

    /// Resolves a scalar type by its manifest name. Succeeds exactly on the
    /// eleven names of [`ValueType::futhark_name`]; any other name is handed
    /// back in the error.
    pub fn from_manifest(name: &str) -> (r: Result<ValueType, ManifestError>)
        ensures
            match r {
                Ok(v) => v.spec_futhark_name() == name@,
                Err(e) => e@ == (ManifestErrorView::UnknownValueType { name: name@ })
                    && forall|v: ValueType| v.spec_futhark_name() != name@,
            },
            r is Ok <==> Self::spec_from_manifest(name@) is Some,
            r is Ok ==> Self::spec_from_manifest(name@) == Some(r->Ok_0),
    {
        let all = ValueType::variants();
        let mut i: usize = 0;
        while i < all.len()
            invariant
                i <= all.len(),
                all@ == Self::spec_variants(),
                forall|v: ValueType| v.index() < i ==> v.spec_futhark_name() != name@,
            decreases all.len() - i,
        {
            if same_text(all[i].futhark_name(), name) {
                proof {
                    lemma_names_differ();
                }
                return Ok(all[i]);
            }
            assert forall|v: ValueType| v.index() < i + 1 implies v.spec_futhark_name()
                != name@ by {
                if v.index() == i {
                    assert(all@[v.index()] == v);
                }
            }
            i = i + 1;
        }
        assert forall|v: ValueType| v.spec_futhark_name() != name@ by {
            assert(v.index() < 11);
        }
        Err(ManifestError::UnknownValueType { name: name.to_owned() })
    }
}

/// No two scalar types share a manifest name, so a name and the type that it
/// resolves to determine each other.
pub proof fn lemma_names_differ()
    ensures
        forall|a: ValueType, b: ValueType|
            a.spec_futhark_name() == b.spec_futhark_name() ==> a == b,
        forall|a: ValueType| ValueType::spec_from_manifest(a.spec_futhark_name()) == Some(a),
{
    reveal_strlit("i8");
    reveal_strlit("i16");
    reveal_strlit("i32");
    reveal_strlit("i64");
    reveal_strlit("u8");
    reveal_strlit("u16");
    reveal_strlit("u32");
    reveal_strlit("u64");
    reveal_strlit("f16");
    reveal_strlit("f32");
    reveal_strlit("f64");
    assert forall|a: ValueType, b: ValueType|
        a.spec_futhark_name() == b.spec_futhark_name() implies a == b by {
        let x = a.spec_futhark_name();
        let y = b.spec_futhark_name();
        assert(x.len() == y.len());
        assert(x[0] == y[0]);
        assert(x[1] == y[1]);
        if x.len() == 3 {
            assert(x[2] == y[2]);
        }
    }
}

} // verus!
