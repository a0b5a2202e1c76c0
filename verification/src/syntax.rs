//! The declarations that the bindings are made of, as data: types as they
//! stand in a foreign signature, parameters and signatures, each with the
//! text that writes it in Rust.

use vstd::prelude::*;

use crate::manifest::{ArrayType, ValueType};
use crate::text::{decimal, join, spec_decimal, spec_join, views};

verus! {

/// How a parameter reaches its value.
#[derive(Debug, Clone, Copy, PartialEq, Eq, Structural)]
pub enum Pointer {
    /// By value.
    Value,
    /// By `*const`.
    Const,
    /// By `*mut`.
    Mut,
    /// By `*mut *mut`: the callee allocates.
    MutMut,
}

/// What a foreign type is a type of.
#[derive(Debug, Clone, Copy, PartialEq, Eq, Structural)]
pub enum Base {
    /// A scalar.
    Scalar(ValueType),
    /// C's `int`, the status that Futhark's functions return.
    Int,
    /// The opaque type of a context configuration.
    Config,
    /// The opaque type of a context.
    Context,
    /// The opaque type of an array.
    Array(ArrayType),
}

/// A type as it stands in a foreign signature.
#[derive(Debug, Clone, Copy, PartialEq, Eq, Structural)]
pub struct FfiType {
    pub pointer: Pointer,
    pub base: Base,
}

/// The name of a parameter.
#[derive(Debug, Clone, Copy, PartialEq, Eq, Structural)]
pub enum Name {
    Ctx,
    Cfg,
    Data,
    Array,
    /// The size of a dimension.
    Dim(usize),
    /// An input of an entry point.
    In(usize),
    /// An output of an entry point.
    Out(usize),
}

/// A parameter of a foreign function.
#[derive(Debug, Clone, Copy, PartialEq, Eq, Structural)]
pub struct Param {
    pub name: Name,
    pub ty: FfiType,
}

/// The signature of a foreign function.
#[derive(Debug, Clone)]
pub struct Signature {
    pub name: String,
    pub params: Vec<Param>,
    pub ret: Option<FfiType>,
}

/// A [`Signature`] as a value of mathematics.
pub struct SignatureView {
    pub name: Seq<char>,
    pub params: Seq<Param>,
    pub ret: Option<FfiType>,
}

impl View for Signature {
    type V = SignatureView;

    open spec fn view(&self) -> SignatureView {
        SignatureView { name: self.name@, params: self.params@, ret: self.ret }
    }
}

/// The module that holds the opaque types which all backends share.
pub const COMMON: &'static str = "types";

/// The module that holds the raw declarations of one backend.
pub const RAW: &'static str = "sys";

impl Pointer {
    pub open spec fn spec_text(self) -> Seq<char> {
        match self {
            Pointer::Value => ""@,
            Pointer::Const => "*const "@,
            Pointer::Mut => "*mut "@,
            Pointer::MutMut => "*mut *mut "@,
        }
    }

    /// The text that stands before the base type.
    pub fn text(&self) -> (text: &'static str)
        ensures
            text@ == self.spec_text(),
    {
        match self {
            Pointer::Value => "",
            Pointer::Const => "*const ",
            Pointer::Mut => "*mut ",
            Pointer::MutMut => "*mut *mut ",
        }
    }
}

impl Base {
    /// Whether this is one of the opaque types, which each backend declares
    /// anew.
    pub open spec fn spec_is_opaque(self) -> bool {
        self is Config || self is Context || self is Array
    }

    pub open spec fn spec_text(self, module: Seq<char>) -> Seq<char> {
        match self {
            Base::Scalar(v) => v.spec_rust_name(),
            Base::Int => "std::os::raw::c_int"@,
            Base::Config => module + "::futhark_context_config"@,
            Base::Context => module + "::futhark_context"@,
            Base::Array(a) => module + "::"@ + a.spec_type_ident(),
        }
    }

    /// Whether this is one of the opaque types, which each backend declares
    /// anew.
    pub fn is_opaque(&self) -> (opaque: bool)
        ensures
            opaque == self.spec_is_opaque(),
    {
        match self {
            Base::Config => true,
            Base::Context => true,
            Base::Array(_) => true,
            _ => false,
        }
    }

    /// The path of this type, its opaque types taken from `module`.
    pub fn text(&self, module: &str) -> (text: String)
        ensures
            text@ == self.spec_text(module@),
    {
        match self {
            Base::Scalar(v) => v.rust_name().to_owned(),
            Base::Int => "std::os::raw::c_int".to_owned(),
            Base::Config => {
                let mut text = module.to_owned();
                text.append("::futhark_context_config");
                text
            },
            Base::Context => {
                let mut text = module.to_owned();
                text.append("::futhark_context");
                text
            },
            Base::Array(a) => {
                let mut text = module.to_owned();
                text.append("::");
                text.append(a.type_ident().as_str());
                text
            },
        }
    }
}

impl FfiType {
    pub open spec fn spec_text(self, module: Seq<char>) -> Seq<char> {
        self.pointer.spec_text() + self.base.spec_text(module)
    }

    /// This type as Rust writes it, its opaque types taken from `module`.
    pub fn text(&self, module: &str) -> (text: String)
        ensures
            text@ == self.spec_text(module@),
    {
        let mut text = self.pointer.text().to_owned();
        text.append(self.base.text(module).as_str());
        text
    }
}

impl Name {
    pub open spec fn spec_text(self) -> Seq<char> {
        match self {
            Name::Ctx => "ctx"@,
            Name::Cfg => "cfg"@,
            Name::Data => "data"@,
            Name::Array => "array"@,
            Name::Dim(i) => "dim_"@ + spec_decimal(i as nat),
            Name::In(i) => "in_"@ + spec_decimal(i as nat),
            Name::Out(i) => "out_"@ + spec_decimal(i as nat),
        }
    }

    /// The identifier of this name.
    pub fn text(&self) -> (text: String)
        ensures
            text@ == self.spec_text(),
    {
        match self {
            Name::Ctx => "ctx".to_owned(),
            Name::Cfg => "cfg".to_owned(),
            Name::Data => "data".to_owned(),
            Name::Array => "array".to_owned(),
            Name::Dim(i) => {
                let mut text = "dim_".to_owned();
                text.append(decimal(*i).as_str());
                text
            },
            Name::In(i) => {
                let mut text = "in_".to_owned();
                text.append(decimal(*i).as_str());
                text
            },
            Name::Out(i) => {
                let mut text = "out_".to_owned();
                text.append(decimal(*i).as_str());
                text
            },
        }
    }
}

impl Param {
    /// A parameter as a signature declares it: name, colon, type.
    pub open spec fn spec_text(self) -> Seq<char> {
        self.name.spec_text() + ": "@ + self.ty.spec_text(COMMON@)
    }

    /// A parameter as a signature declares it.
    pub fn text(&self) -> (text: String)
        ensures
            text@ == self.spec_text(),
    {
        let mut text = self.name.text();
        text.append(": ");
        text.append(self.ty.text(COMMON).as_str());
        text
    }
}

/// The texts of `params`, one for one.
pub open spec fn spec_param_texts(params: Seq<Param>) -> Seq<Seq<char>> {
    Seq::new(params.len(), |i: int| params[i].spec_text())
}

/// What stands after the parameters of a signature that returns `ret`.
pub open spec fn spec_return_text(ret: Option<FfiType>) -> Seq<char> {
    match ret {
        Some(ty) => " -> "@ + ty.spec_text(COMMON@),
        None => ""@,
    }
}

impl SignatureView {
    /// The head of the function: `unsafe fn`, the name, the parameters set
    /// apart by commas, and the type returned.
    pub open spec fn header(self) -> Seq<char> {
        "unsafe fn "@ + self.name + "("@ + spec_join(spec_param_texts(self.params), ", "@) + ")"@
            + spec_return_text(self.ret)
    }
}

impl Signature {
    /// The head of the function as Rust writes it.
    pub fn header(&self) -> (text: String)
        ensures
            text@ == self@.header(),
    {
        let mut params: Vec<String> = Vec::new();
        let mut i: usize = 0;
        while i < self.params.len()
            invariant
                i <= self.params.len(),
                params@.len() == i,
                forall|j: int| 0 <= j < i ==> (#[trigger] params@[j])@ == self.params@[j].spec_text(),
            decreases self.params.len() - i,
        {
            params.push(self.params[i].text());
            i = i + 1;
        }
        assert(views(params@) =~= spec_param_texts(self.params@));
        let mut text = "unsafe fn ".to_owned();
        text.append(self.name.as_str());
        text.append("(");
        text.append(join(&params, ", ").as_str());
        text.append(")");
        match self.ret {
            Some(ty) => {
                let mut ret = " -> ".to_owned();
                ret.append(ty.text(COMMON).as_str());
                text.append(ret.as_str());
            },
            None => {
                text.append("");
            },
        }
        text
    }
}

} // verus!
