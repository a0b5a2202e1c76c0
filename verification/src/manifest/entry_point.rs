use vstd::prelude::*;

use crate::manifest::Type;

verus! {

/// A function that the Futhark library exports.
#[derive(Debug, Clone)]
pub struct EntryPoint {
    pub name: String,
    pub inputs: Vec<Type>,
    pub outputs: Vec<Type>,
}

/// An [`EntryPoint`] as a value of mathematics.
pub struct EntryPointView {
    pub name: Seq<char>,
    pub inputs: Seq<Type>,
    pub outputs: Seq<Type>,
}

impl View for EntryPoint {
    type V = EntryPointView;

    open spec fn view(&self) -> EntryPointView {
        EntryPointView { name: self.name@, inputs: self.inputs@, outputs: self.outputs@ }
    }
}

impl EntryPointView {
    /// The name of the C function of this entry point.
    pub open spec fn futhark_fn_ident(self) -> Seq<char> {
        "futhark_entry_"@ + self.name
    }

    /// The name of the method of the context that calls this entry point.
    pub open spec fn context_fn_ident(self) -> Seq<char> {
        "entry_"@ + self.name
    }
}

impl EntryPoint {
    pub fn futhark_fn_ident(&self) -> (name: String)
        ensures
            name@ == self@.futhark_fn_ident(),
    {
        let mut name = "futhark_entry_".to_owned();
        name.append(self.name.as_str());
        name
    }

    pub fn context_fn_ident(&self) -> (name: String)
        ensures
            name@ == self@.context_fn_ident(),
    {
        let mut name = "entry_".to_owned();
        name.append(self.name.as_str());
        name
    }
}

} // verus!
