use vstd::prelude::*;

use crate::manifest::{EntryPoint, EntryPointView, Manifest, Type};
use crate::syntax::Name;
use crate::text::{concatenate, join, spec_concatenate, spec_join, views};

verus! {

/// The method of the context that calls one entry point.
#[derive(Debug, Clone)]
pub struct EntryMethod {
    /// The name of the method.
    pub name: String,
    /// The name of the backend's function.
    pub backend_fn: String,
    /// The types of the inputs, in their order.
    pub inputs: Vec<Type>,
    /// The types of the outputs, in their order.
    pub outputs: Vec<Type>,
}

/// An [`EntryMethod`] as a value of mathematics.
pub struct EntryMethodView {
    pub name: Seq<char>,
    pub backend_fn: Seq<char>,
    pub inputs: Seq<Type>,
    pub outputs: Seq<Type>,
}

impl View for EntryMethod {
    type V = EntryMethodView;

    open spec fn view(&self) -> EntryMethodView {
        EntryMethodView {
            name: self.name@,
            backend_fn: self.backend_fn@,
            inputs: self.inputs@,
            outputs: self.outputs@,
        }
    }
}

/// The method of the entry point `entry`: it takes the inputs and returns
/// the outputs in the order of the manifest.
pub open spec fn spec_entry_method(entry: EntryPointView) -> EntryMethodView {
    EntryMethodView {
        name: entry.context_fn_ident(),
        backend_fn: entry.futhark_fn_ident(),
        inputs: entry.inputs,
        outputs: entry.outputs,
    }
}

fn copy_types(types: &Vec<Type>) -> (copy: Vec<Type>)
    ensures
        copy@ == types@,
{
    let mut copy: Vec<Type> = Vec::new();
    let mut i: usize = 0;
    while i < types.len()
        invariant
            i <= types.len(),
            copy@ == types@.take(i as int),
        decreases types.len() - i,
    {
        copy.push(types[i]);
        assert(copy@ =~= types@.take(i + 1));
        i = i + 1;
    }
    assert(types@.take(i as int) =~= types@);
    copy
}

/// Lays out the method of the context that calls the entry point `ep`.
pub fn entry_fn_template(ep: &EntryPoint) -> (method: EntryMethod)
    ensures
        method@ == spec_entry_method(ep@),
{
    EntryMethod {
        name: ep.context_fn_ident(),
        backend_fn: ep.futhark_fn_ident(),
        inputs: copy_types(&ep.inputs),
        outputs: copy_types(&ep.outputs),
    }
}

/// The context of the bindings: the methods that it has beside those that
/// every context has.
#[derive(Debug, Clone)]
pub struct ContextDecl {
    pub methods: Vec<EntryMethod>,
}

/// The methods of the entry points `entries`, one for one.
pub open spec fn spec_entry_methods(entries: Seq<EntryPointView>) -> Seq<EntryMethodView> {
    Seq::new(entries.len(), |i: int| spec_entry_method(entries[i]))
}

/// Lays out the context of the library that `manifest` describes: one
/// method for each entry point, in the order of the manifest.
pub fn template(manifest: &Manifest) -> (context: ContextDecl)
    ensures
        views(context.methods@) == spec_entry_methods(manifest@.entry_points),
{
    let mut methods: Vec<EntryMethod> = Vec::new();
    let mut i: usize = 0;
    while i < manifest.entry_points.len()
        invariant
            i <= manifest.entry_points.len(),
            methods@.len() == i,
            forall|j: int|
                0 <= j < i ==> (#[trigger] methods@[j])@ == spec_entry_method(
                    manifest.entry_points@[j]@,
                ),
        decreases manifest.entry_points.len() - i,
    {
        methods.push(entry_fn_template(&manifest.entry_points[i]));
        i = i + 1;
    }
    assert(views(methods@) =~= spec_entry_methods(manifest@.entry_points));
    ContextDecl { methods }
}

/// The places of a method where a parameter or a result of the entry point
/// is written.
#[derive(Debug, Clone, Copy, PartialEq, Eq, Structural)]
pub enum Place {
    /// A parameter of the method: a scalar by value, an array by reference
    /// to its wrapper.
    Parameter,
    /// A type in the tuple that the method returns.
    Returned,
    /// The variable that receives an output: a scalar starts at its
    /// default, a wrapper without a handle.
    Local,
    /// An output as it is handed to the backend: by address.
    OutArgument,
    /// An input as it is handed to the backend: a scalar as it is, a
    /// wrapper by its handle.
    InArgument,
    /// An output in the tuple that the method returns.
    Result,
}

/// What stands at `place` for the parameter or result number `i` of type
/// `type_`.
pub open spec fn spec_piece(place: Place, i: usize, type_: Type) -> Seq<char> {
    match (place, type_) {
        (Place::Parameter, Type::Value(v)) => Name::In(i).spec_text() + ": "@ + v.spec_rust_name(),
        (Place::Parameter, Type::Array(a)) => Name::In(i).spec_text() + ": &"@
            + a.spec_struct_ident() + "<B>"@,
        (Place::Returned, Type::Value(v)) => v.spec_rust_name(),
        (Place::Returned, Type::Array(a)) => a.spec_struct_ident() + "<B>"@,
        (Place::Local, Type::Value(v)) => "        let mut "@ + Name::Out(i).spec_text() + ": "@
            + v.spec_rust_name() + " = Default::default();\n"@,
        (Place::Local, Type::Array(a)) => "        let mut "@ + Name::Out(i).spec_text() + " = "@
            + a.spec_struct_ident() + " { context: self, inner: std::ptr::null_mut() };\n"@,
        (Place::OutArgument, Type::Value(_)) => "&mut "@ + Name::Out(i).spec_text(),
        (Place::OutArgument, Type::Array(_)) => "&mut "@ + Name::Out(i).spec_text() + ".inner"@,
        (Place::InArgument, Type::Value(_)) => Name::In(i).spec_text(),
        (Place::InArgument, Type::Array(_)) => Name::In(i).spec_text() + ".inner"@,
        (Place::Result, _) => Name::Out(i).spec_text(),
    }
}

/// What stands at `place` for each of `types`, in their order.
pub open spec fn spec_pieces(place: Place, types: Seq<Type>) -> Seq<Seq<char>> {
    Seq::new(types.len(), |i: int| spec_piece(place, i as usize, types[i]))
}

fn piece(place: Place, i: usize, type_: Type) -> (text: String)
    ensures
        text@ == spec_piece(place, i, type_),
{
    match place {
        Place::Parameter => {
            let mut text = Name::In(i).text();
            match type_ {
                Type::Value(v) => {
                    text.append(": ");
                    text.append(v.rust_name());
                },
                Type::Array(a) => {
                    text.append(": &");
                    text.append(a.struct_ident().as_str());
                    text.append("<B>");
                },
            }
            text
        },
        Place::Returned => match type_ {
            Type::Value(v) => v.rust_name().to_owned(),
            Type::Array(a) => {
                let mut text = a.struct_ident();
                text.append("<B>");
                text
            },
        },
        Place::Local => {
            let mut text = "        let mut ".to_owned();
            text.append(Name::Out(i).text().as_str());
            match type_ {
                Type::Value(v) => {
                    text.append(": ");
                    text.append(v.rust_name());
                    text.append(" = Default::default();\n");
                },
                Type::Array(a) => {
                    text.append(" = ");
                    text.append(a.struct_ident().as_str());
                    text.append(" { context: self, inner: std::ptr::null_mut() };\n");
                },
            }
            text
        },
        Place::OutArgument => {
            let mut text = "&mut ".to_owned();
            text.append(Name::Out(i).text().as_str());
            match type_ {
                Type::Value(_) => {},
                Type::Array(_) => {
                    text.append(".inner");
                },
            }
            text
        },
        Place::InArgument => {
            let mut text = Name::In(i).text();
            match type_ {
                Type::Value(_) => {},
                Type::Array(_) => {
                    text.append(".inner");
                },
            }
            text
        },
        Place::Result => Name::Out(i).text(),
    }
}

/// Appends to `pieces` what stands at `place` for each of `types`.
fn push_pieces(pieces: &mut Vec<String>, place: Place, types: &Vec<Type>)
    ensures
        views(final(pieces)@) == views(old(pieces)@) + spec_pieces(place, types@),
{
    let ghost before = views(pieces@);
    let mut i: usize = 0;
    while i < types.len()
        invariant
            i <= types.len(),
            views(pieces@) == before + spec_pieces(place, types@).take(i as int),
        decreases types.len() - i,
    {
        let ghost so_far = views(pieces@);
        let next = piece(place, i, types[i]);
        pieces.push(next);
        assert(views(pieces@) =~= so_far.push(next@));
        assert(views(pieces@) =~= before + spec_pieces(place, types@).take(i + 1));
        i = i + 1;
    }
    assert(spec_pieces(place, types@).take(i as int) =~= spec_pieces(place, types@));
}

/// The declaration of the context up to the methods of the entry points:
/// it owns its configuration and one context of Futhark, and stops where
/// Futhark hands out none.
pub const CONTEXT_HEAD: &'static str =
    "/// Futhark context object.\n///\n/// This required for anything Futhark related.\n/// It also provides the `entry` functions.\npub struct Context<B: Backend> {\n    config: Config<B>,\n    pub(crate) inner: *mut types::futhark_context,\n}\n\nunsafe impl<B: Backend> Send for Context<B> {}\nunsafe impl<B: Backend> Sync for Context<B> {}\n\nimpl<B: Backend> Context<B> {\n    /// Creates a new Futhark context.\n    pub fn new(config: Config<B>) -> Self {\n        let inner = unsafe { B::futhark_context_new(config.inner) };\n        assert!(!inner.is_null());\n        Context { config, inner }\n    }\n\n    /// Returns the configuration.\n    ///\n    /// It's read-only because it can not be changed after\n    /// [`Context::new`] has been called.\n    pub fn config(&self) -> &Config<B> {\n        &self.config\n    }\n\n    /// Sync execution and memory between CPU and GPU.\n    ///\n    /// # Important\n    /// **Always** call `sync` before accessing the result of any `entry` function.\n    ///\n    /// Only `C` and `MultiCore` targets have their result immediately available.\n    /// For all other targets, you have to call `sync` before using an `entry` functions return value.\n    /// This is necessary, because execution of `entry` functions happens asynchronously for most targets.\n    ///\n    /// Additionally, you have to check **both**\n    /// - the [`Result`] of the `entry` function to be [`Ok`]\n    /// - and the result of `sync` to be `true`.\n    pub fn sync(&self) -> bool {\n        unsafe { B::futhark_context_sync(self.inner) == 0 }\n    }\n\n";

/// What closes the declaration of the context: the default context, and
/// the release of the context when it is dropped.
pub const CONTEXT_TAIL: &'static str =
    "}\n\nimpl<B: Backend> Default for Context<B> {\n    fn default() -> Self {\n        Self::new(Config::default())\n    }\n}\n\nimpl<B: Backend> Drop for Context<B> {\n    fn drop(&mut self) {\n        unsafe {\n            B::futhark_context_free(self.inner);\n        }\n    }\n}\n\n";

/// What stands between the summary of an entry method and its name.
pub const ENTRY_DOC: &'static str =
    "`.\n    ///\n    /// # Important\n    /// Execution might happen asynchronously, so you have to call [`Context::sync`]\n    /// before using it. See the documentation of [`Context::sync`] for details.\n    #[allow(unused_parens, clippy::double_parens)]\n    pub fn ";

/// What closes an entry method: a status other than zero is the error.
pub const ENTRY_END: &'static str =
    ")),\n            err => Err(err.into()),\n        }\n    }\n\n";

impl EntryMethodView {
    /// The parameters of the method: the context itself, then the inputs.
    pub open spec fn parameters(self) -> Seq<Seq<char>> {
        seq!["&self"@] + spec_pieces(Place::Parameter, self.inputs)
    }

    /// What the backend's function is called with: the handle of the
    /// context, then every output, then every input.
    pub open spec fn arguments(self) -> Seq<Seq<char>> {
        seq!["self.inner"@] + spec_pieces(Place::OutArgument, self.outputs) + spec_pieces(
            Place::InArgument,
            self.inputs,
        )
    }

    /// The method as Rust source. It makes room for the outputs, calls the
    /// backend, and returns the outputs where the status is zero and the
    /// status where it is not.
    pub open spec fn text(self) -> Seq<char> {
        "    /// Entry point `"@ + self.name + ENTRY_DOC@ + self.name + "("@ + spec_join(
            self.parameters(),
            ", "@,
        ) + ") -> Result<("@ + spec_join(spec_pieces(Place::Returned, self.outputs), ", "@)
            + "), i64> {\n"@ + spec_concatenate(spec_pieces(Place::Local, self.outputs))
            + "\n        let status = unsafe {\n            B::"@ + self.backend_fn + "("@
            + spec_join(self.arguments(), ", "@)
            + ")\n        };\n\n        match status {\n            0 => Ok(("@ + spec_join(
            spec_pieces(Place::Result, self.outputs),
            ", "@,
        ) + ENTRY_END@
    }
}

fn pieces(place: Place, types: &Vec<Type>) -> (pieces: Vec<String>)
    ensures
        views(pieces@) == spec_pieces(place, types@),
{
    let mut pieces: Vec<String> = Vec::new();
    assert(views(pieces@) =~= Seq::<Seq<char>>::empty());
    push_pieces(&mut pieces, place, types);
    assert(views(pieces@) =~= spec_pieces(place, types@));
    pieces
}

impl EntryMethod {
    /// Writes the method as Rust source.
    pub fn render(&self) -> (text: String)
        ensures
            text@ == self@.text(),
    {
        let mut parameters = vec!["&self".to_owned()];
        assert(views(parameters@) =~= seq!["&self"@]);
        push_pieces(&mut parameters, Place::Parameter, &self.inputs);
        let mut arguments = vec!["self.inner".to_owned()];
        assert(views(arguments@) =~= seq!["self.inner"@]);
        push_pieces(&mut arguments, Place::OutArgument, &self.outputs);
        push_pieces(&mut arguments, Place::InArgument, &self.inputs);
        let returned = pieces(Place::Returned, &self.outputs);
        let locals = pieces(Place::Local, &self.outputs);
        let results = pieces(Place::Result, &self.outputs);
        let mut text = "    /// Entry point `".to_owned();
        text.append(self.name.as_str());
        text.append(ENTRY_DOC);
        text.append(self.name.as_str());
        text.append("(");
        text.append(join(&parameters, ", ").as_str());
        text.append(") -> Result<(");
        text.append(join(&returned, ", ").as_str());
        text.append("), i64> {\n");
        text.append(concatenate(&locals).as_str());
        text.append("\n        let status = unsafe {\n            B::");
        text.append(self.backend_fn.as_str());
        text.append("(");
        text.append(join(&arguments, ", ").as_str());
        text.append(")\n        };\n\n        match status {\n            0 => Ok((");
        text.append(join(&results, ", ").as_str());
        text.append(ENTRY_END);
        text
    }
}

/// The texts of `methods`, one for one.
pub open spec fn spec_entry_texts(methods: Seq<EntryMethodView>) -> Seq<Seq<char>> {
    Seq::new(methods.len(), |i: int| methods[i].text())
}

/// The context with the methods `methods` as Rust source.
pub open spec fn spec_context_text(methods: Seq<EntryMethodView>) -> Seq<char> {
    CONTEXT_HEAD@ + spec_concatenate(spec_entry_texts(methods)) + CONTEXT_TAIL@
}

impl ContextDecl {
    /// Writes the context as Rust source.
    pub fn render(&self) -> (text: String)
        ensures
            text@ == spec_context_text(views(self.methods@)),
    {
        let mut methods: Vec<String> = Vec::new();
        let mut i: usize = 0;
        while i < self.methods.len()
            invariant
                i <= self.methods.len(),
                methods@.len() == i,
                forall|j: int| 0 <= j < i ==> (#[trigger] methods@[j])@ == self.methods@[j]@.text(),
            decreases self.methods.len() - i,
        {
            methods.push(self.methods[i].render());
            i = i + 1;
        }
        assert(views(methods@) =~= spec_entry_texts(views(self.methods@)));
        let mut text = CONTEXT_HEAD.to_owned();
        text.append(concatenate(&methods).as_str());
        text.append(CONTEXT_TAIL);
        text
    }
}

} // verus!
