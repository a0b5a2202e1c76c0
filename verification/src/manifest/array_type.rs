use vstd::prelude::*;

use crate::manifest::value_type::ValueType;
use crate::text::{decimal, lemma_decimal_digits, lemma_decimal_injective, spec_decimal};

verus! {

/// An array type: the type of its elements and the number of its dimensions.
#[derive(Debug, Clone, Copy, PartialEq, Eq, Structural)]
pub struct ArrayType {
    pub elements: ValueType,
    pub rank: usize,
}

impl ArrayType {
    /// What all of Futhark's symbols for this type end in: elements and
    /// rank, as in `f64_2d`.
    pub open spec fn spec_suffix(self) -> Seq<char> {
        self.elements.spec_futhark_name() + "_"@ + spec_decimal(self.rank as nat) + "d"@
    }

    /// The name of the safe wrapper, as in `Array_F64_2D`.
    pub open spec fn spec_struct_ident(self) -> Seq<char> {
        "Array_"@ + self.elements.spec_upper_name() + "_"@ + spec_decimal(self.rank as nat)
            + "D"@
    }

    /// The name of the opaque C type, as in `futhark_f64_2d`.
    pub open spec fn spec_type_ident(self) -> Seq<char> {
        "futhark_"@ + self.spec_suffix()
    }

    /// The name of the constructor, as in `futhark_new_f64_2d`.
    pub open spec fn spec_fn_new_ident(self) -> Seq<char> {
        "futhark_new_"@ + self.spec_suffix()
    }

    /// The name of the accessor of the values, as in `futhark_values_f64_2d`.
    pub open spec fn spec_fn_values_ident(self) -> Seq<char> {
        "futhark_values_"@ + self.spec_suffix()
    }

    /// The name of the accessor of the shape, as in `futhark_shape_f64_2d`.
    pub open spec fn spec_fn_shape_ident(self) -> Seq<char> {
        "futhark_shape_"@ + self.spec_suffix()
    }

    /// The name of the destructor, as in `futhark_free_f64_2d`.
    pub open spec fn spec_fn_free_ident(self) -> Seq<char> {
        "futhark_free_"@ + self.spec_suffix()
    }

    fn symbol(&self, prefix: &str) -> (name: String)
        ensures
            name@ == prefix@ + self.spec_suffix(),
    {
        let mut name = prefix.to_owned();
        name.append(self.elements.futhark_name());
        name.append("_");
        name.append(decimal(self.rank).as_str());
        name.append("d");
        assert(name@ =~= prefix@ + self.spec_suffix());
        name
    }

    pub fn struct_ident(&self) -> (name: String)
        ensures
            name@ == self.spec_struct_ident(),
    {
        let mut name = "Array_".to_owned();
        name.append(self.elements.upper_name());
        name.append("_");
        name.append(decimal(self.rank).as_str());
        name.append("D");
        name
    }

    pub fn type_ident(&self) -> (name: String)
        ensures
            name@ == self.spec_type_ident(),
    {
        self.symbol("futhark_")
    }

    pub fn fn_new_ident(&self) -> (name: String)
        ensures
            name@ == self.spec_fn_new_ident(),
    {
        self.symbol("futhark_new_")
    }

    pub fn fn_values_ident(&self) -> (name: String)
        ensures
            name@ == self.spec_fn_values_ident(),
    {
        self.symbol("futhark_values_")
    }

    pub fn fn_shape_ident(&self) -> (name: String)
        ensures
            name@ == self.spec_fn_shape_ident(),
    {
        self.symbol("futhark_shape_")
    }

    pub fn fn_free_ident(&self) -> (name: String)
        ensures
            name@ == self.spec_fn_free_ident(),
    {
        self.symbol("futhark_free_")
    }
}

proof fn reveal_names()
    ensures
        "futhark_"@ == seq!['f', 'u', 't', 'h', 'a', 'r', 'k', '_'],
        "futhark_new_"@ == "futhark_"@ + seq!['n', 'e', 'w', '_'],
        "futhark_values_"@ == "futhark_"@ + seq!['v', 'a', 'l', 'u', 'e', 's', '_'],
        "futhark_shape_"@ == "futhark_"@ + seq!['s', 'h', 'a', 'p', 'e', '_'],
        "futhark_free_"@ == "futhark_"@ + seq!['f', 'r', 'e', 'e', '_'],
        "Array_"@ == seq!['A', 'r', 'r', 'a', 'y', '_'],
        "_"@ == seq!['_'],
        "d"@ == seq!['d'],
        "D"@ == seq!['D'],
        forall|v: ValueType|
            {
                let n = #[trigger] v.spec_futhark_name();
                &&& 2 <= n.len() <= 3
                &&& (n[0] == 'i' || n[0] == 'u' || n[0] == 'f')
                &&& forall|i: int| 1 <= i < n.len() ==> '0' <= #[trigger] n[i] <= '9'
            },
        forall|v: ValueType|
            {
                let n = #[trigger] v.spec_upper_name();
                &&& 2 <= n.len() <= 3
                &&& (n[0] == 'I' || n[0] == 'U' || n[0] == 'F')
                &&& forall|i: int| 1 <= i < n.len() ==> '0' <= #[trigger] n[i] <= '9'
            },
        forall|v: ValueType, w: ValueType|
            v.spec_upper_name() == w.spec_upper_name() ==> v == w,
        forall|v: ValueType, w: ValueType|
            v.spec_futhark_name() == w.spec_futhark_name() ==> v == w,
{
    reveal_strlit("futhark_");
    reveal_strlit("futhark_new_");
    reveal_strlit("futhark_values_");
    reveal_strlit("futhark_shape_");
    reveal_strlit("futhark_free_");
    reveal_strlit("Array_");
    reveal_strlit("_");
    reveal_strlit("d");
    reveal_strlit("D");
    reveal_strlit("i8");
    reveal_strlit("i16");
    reveal_strlit("i32");
    reveal_strlit("i64");
    reveal_strlit("u8");
    reveal_strlit("u16");
    reveal_strlit("u32");
    reveal_strlit("u64");
    reveal_strlit("f16");
    reveal_strlit("f32");
    reveal_strlit("f64");
    reveal_strlit("I8");
    reveal_strlit("I16");
    reveal_strlit("I32");
    reveal_strlit("I64");
    reveal_strlit("U8");
    reveal_strlit("U16");
    reveal_strlit("U32");
    reveal_strlit("U64");
    reveal_strlit("F16");
    reveal_strlit("F32");
    reveal_strlit("F64");
    assert("futhark_"@ =~= seq!['f', 'u', 't', 'h', 'a', 'r', 'k', '_']);
    assert("futhark_new_"@ =~= "futhark_"@ + seq!['n', 'e', 'w', '_']);
    assert("futhark_values_"@ =~= "futhark_"@ + seq!['v', 'a', 'l', 'u', 'e', 's', '_']);
    assert("futhark_shape_"@ =~= "futhark_"@ + seq!['s', 'h', 'a', 'p', 'e', '_']);
    assert("futhark_free_"@ =~= "futhark_"@ + seq!['f', 'r', 'e', 'e', '_']);
    assert("Array_"@ =~= seq!['A', 'r', 'r', 'a', 'y', '_']);
    assert("_"@ =~= seq!['_']);
    assert("d"@ =~= seq!['d']);
    assert("D"@ =~= seq!['D']);
    assert forall|v: ValueType, w: ValueType|
        v.spec_upper_name() == w.spec_upper_name() implies v == w by {
        let x = v.spec_upper_name();
        let y = w.spec_upper_name();
        assert(x.len() == y.len());
        assert(x[0] == y[0]);
        assert(x[1] == y[1]);
        if x.len() == 3 {
            assert(x[2] == y[2]);
        }
    }
    assert forall|v: ValueType, w: ValueType|
        v.spec_futhark_name() == w.spec_futhark_name() implies v == w by {
        let x = v.spec_futhark_name();
        let y = w.spec_futhark_name();
        assert(x.len() == y.len());
        assert(x[0] == y[0]);
        assert(x[1] == y[1]);
        if x.len() == 3 {
            assert(x[2] == y[2]);
        }
    }
}

/// A name made of a stem of a letter and digits, an underscore and a number
/// tells the stem and the number apart.
proof fn lemma_split(s1: Seq<char>, n1: nat, s2: Seq<char>, n2: nat, end: char)
    requires
        s1 + seq!['_'] + spec_decimal(n1) + seq![end] == s2 + seq!['_'] + spec_decimal(n2)
            + seq![end],
        forall|i: int| 0 <= i < s1.len() ==> #[trigger] s1[i] != '_',
        forall|i: int| 0 <= i < s2.len() ==> #[trigger] s2[i] != '_',
    ensures
        s1 == s2,
        n1 == n2,
{
    let a = s1 + seq!['_'] + spec_decimal(n1) + seq![end];
    let b = s2 + seq!['_'] + spec_decimal(n2) + seq![end];
    lemma_decimal_digits(n1);
    lemma_decimal_digits(n2);
    assert(a.len() == b.len());
    if s1.len() < s2.len() {
        assert(a[s1.len() as int] == '_');
        assert(b[s1.len() as int] == s2[s1.len() as int]);
        assert(false);
    }
    if s2.len() < s1.len() {
        assert(b[s2.len() as int] == '_');
        assert(a[s2.len() as int] == s1[s2.len() as int]);
        assert(false);
    }
    assert(s1 =~= s2) by {
        assert forall|i: int| 0 <= i < s1.len() implies s1[i] == s2[i] by {
            assert(a[i] == s1[i]);
            assert(b[i] == s2[i]);
        }
    }
    let k = s1.len() + 1;
    assert(spec_decimal(n1) =~= spec_decimal(n2)) by {
        assert(spec_decimal(n1).len() == spec_decimal(n2).len());
        assert forall|i: int| 0 <= i < spec_decimal(n1).len() implies spec_decimal(n1)[i]
            == spec_decimal(n2)[i] by {
            assert(a[k + i] == spec_decimal(n1)[i]);
            assert(b[k + i] == spec_decimal(n2)[i]);
        }
    }
    lemma_decimal_injective(n1, n2);
}

/// The five symbols of an array type and the name of its wrapper are six
/// different names.
pub proof fn lemma_names_of_one_type_differ(a: ArrayType)
    ensures
        a.spec_type_ident() != a.spec_fn_new_ident(),
        a.spec_type_ident() != a.spec_fn_shape_ident(),
        a.spec_type_ident() != a.spec_fn_values_ident(),
        a.spec_type_ident() != a.spec_fn_free_ident(),
        a.spec_fn_new_ident() != a.spec_fn_shape_ident(),
        a.spec_fn_new_ident() != a.spec_fn_values_ident(),
        a.spec_fn_new_ident() != a.spec_fn_free_ident(),
        a.spec_fn_shape_ident() != a.spec_fn_values_ident(),
        a.spec_fn_shape_ident() != a.spec_fn_free_ident(),
        a.spec_fn_values_ident() != a.spec_fn_free_ident(),
        a.spec_struct_ident() != a.spec_type_ident(),
        a.spec_struct_ident() != a.spec_fn_new_ident(),
        a.spec_struct_ident() != a.spec_fn_shape_ident(),
        a.spec_struct_ident() != a.spec_fn_values_ident(),
        a.spec_struct_ident() != a.spec_fn_free_ident(),
{
    reveal_names();
    let s = a.spec_suffix();
    let e = a.elements.spec_futhark_name();
    assert(s[0] == e[0]);
    assert(s[1] == e[1]);
    let ty = a.spec_type_ident();
    let new = a.spec_fn_new_ident();
    let shape = a.spec_fn_shape_ident();
    let values = a.spec_fn_values_ident();
    let free = a.spec_fn_free_ident();
    let wrapper = a.spec_struct_ident();
    assert(ty[8] == s[0] && ty[9] == s[1]);
    assert(new[8] == 'n');
    assert(shape[8] == 's');
    assert(values[8] == 'v');
    assert(free[8] == 'f' && free[9] == 'r');
    assert(wrapper[0] == 'A');
    assert(ty[0] == 'f' && new[0] == 'f' && shape[0] == 'f' && values[0] == 'f' && free[0]
        == 'f');
}

/// Each name of an array type determines the type: two array types have a
/// symbol or the wrapper name in common exactly when they are the same
/// type, so equal types get equal names on every call and different types
/// never meet.
pub proof fn lemma_names_determine_type(a: ArrayType, b: ArrayType)
    ensures
        a.spec_suffix() == b.spec_suffix() <==> a == b,
        a.spec_type_ident() == b.spec_type_ident() <==> a == b,
        a.spec_fn_new_ident() == b.spec_fn_new_ident() <==> a == b,
        a.spec_fn_shape_ident() == b.spec_fn_shape_ident() <==> a == b,
        a.spec_fn_values_ident() == b.spec_fn_values_ident() <==> a == b,
        a.spec_fn_free_ident() == b.spec_fn_free_ident() <==> a == b,
        a.spec_struct_ident() == b.spec_struct_ident() <==> a == b,
{
    reveal_names();
    let ea = a.elements.spec_futhark_name();
    let eb = b.elements.spec_futhark_name();
    if a.spec_suffix() == b.spec_suffix() {
        lemma_split(ea, a.rank as nat, eb, b.rank as nat, 'd');
    }
    lemma_same_prefix("futhark_"@, a.spec_suffix(), b.spec_suffix());
    lemma_same_prefix("futhark_new_"@, a.spec_suffix(), b.spec_suffix());
    lemma_same_prefix("futhark_shape_"@, a.spec_suffix(), b.spec_suffix());
    lemma_same_prefix("futhark_values_"@, a.spec_suffix(), b.spec_suffix());
    lemma_same_prefix("futhark_free_"@, a.spec_suffix(), b.spec_suffix());
    if a.spec_struct_ident() == b.spec_struct_ident() {
        let ua = a.elements.spec_upper_name();
        let ub = b.elements.spec_upper_name();
        let ra = ua + seq!['_'] + spec_decimal(a.rank as nat) + seq!['D'];
        let rb = ub + seq!['_'] + spec_decimal(b.rank as nat) + seq!['D'];
        assert(a.spec_struct_ident() =~= "Array_"@ + ra);
        assert(b.spec_struct_ident() =~= "Array_"@ + rb);
        lemma_same_prefix("Array_"@, ra, rb);
        lemma_split(ua, a.rank as nat, ub, b.rank as nat, 'D');
    }
}

proof fn lemma_same_prefix(p: Seq<char>, a: Seq<char>, b: Seq<char>)
    ensures
        p + a == p + b ==> a == b,
{
    if p + a == p + b {
        assert((p + a).len() == (p + b).len());
        assert forall|i: int| 0 <= i < a.len() implies a[i] == b[i] by {
            assert((p + a)[p.len() + i] == a[i]);
            assert((p + b)[p.len() + i] == b[i]);
        }
        assert(a =~= b);
    }
}

/// No symbol of an array type, of whatever rank, is the name of a scalar
/// type.
pub proof fn lemma_array_names_are_no_scalar_names(a: ArrayType, v: ValueType)
    ensures
        a.spec_type_ident() != v.spec_futhark_name(),
        a.spec_type_ident() != v.spec_rust_name(),
        a.spec_struct_ident() != v.spec_futhark_name(),
        a.spec_struct_ident() != v.spec_rust_name(),
        a.spec_fn_new_ident() != v.spec_rust_name(),
        a.spec_fn_shape_ident() != v.spec_rust_name(),
        a.spec_fn_values_ident() != v.spec_rust_name(),
        a.spec_fn_free_ident() != v.spec_rust_name(),
{
    reveal_names();
    assert(ValueType::F32.spec_futhark_name().len() <= 3);
    assert(v.spec_rust_name().len() <= 3);
    assert(a.spec_type_ident().len() >= 8);
    assert(a.spec_struct_ident().len() >= 6);
}

} // verus!
