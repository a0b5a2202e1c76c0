use vstd::prelude::*;

use crate::manifest::{
    spec_arrays, ArrayType, EntryPoint, EntryPointView, Manifest, ManifestView, Type, ValueType,
};
use crate::syntax::{Base, FfiType, Name, Param, Pointer, Signature, SignatureView, COMMON, RAW};
use crate::target::Target;
use crate::text::{concatenate, join, spec_concatenate, spec_join, views};

verus! {

/// The type `pointer` to `base`.
pub open spec fn ffi(pointer: Pointer, base: Base) -> FfiType {
    FfiType { pointer, base }
}

/// The parameter that hands the context to a function.
pub open spec fn spec_ctx() -> Param {
    Param { name: Name::Ctx, ty: ffi(Pointer::Mut, Base::Context) }
}

/// The parameter that hands the configuration to a function.
pub open spec fn spec_cfg() -> Param {
    Param { name: Name::Cfg, ty: ffi(Pointer::Mut, Base::Config) }
}

/// The parameter that hands an array of type `array` to a function.
pub open spec fn spec_handle(array: ArrayType) -> Param {
    Param { name: Name::Array, ty: ffi(Pointer::Mut, Base::Array(array)) }
}

/// The functions that make, free and synchronise configurations and
/// contexts. Every library has them.
pub open spec fn spec_lifecycle() -> Seq<SignatureView> {
    seq![
        SignatureView {
            name: "futhark_context_config_new"@,
            params: Seq::empty(),
            ret: Some(ffi(Pointer::Mut, Base::Config)),
        },
        SignatureView {
            name: "futhark_context_config_free"@,
            params: seq![spec_cfg()],
            ret: None,
        },
        SignatureView {
            name: "futhark_context_new"@,
            params: seq![spec_cfg()],
            ret: Some(ffi(Pointer::Mut, Base::Context)),
        },
        SignatureView { name: "futhark_context_free"@, params: seq![spec_ctx()], ret: None },
        SignatureView {
            name: "futhark_context_sync"@,
            params: seq![spec_ctx()],
            ret: Some(ffi(Pointer::Value, Base::Int)),
        },
    ]
}

/// The sizes of the dimensions of an array of rank `rank`, as parameters.
pub open spec fn spec_dims(rank: usize) -> Seq<Param> {
    Seq::new(
        rank as nat,
        |i: int| Param { name: Name::Dim(i as usize), ty: ffi(Pointer::Value, Base::Scalar(ValueType::i64)) },
    )
}

/// The constructor of `array`: it takes the context, the values in one flat
/// buffer and the size of each dimension, and returns a new array.
pub open spec fn spec_array_new(array: ArrayType) -> SignatureView {
    SignatureView {
        name: array.spec_fn_new_ident(),
        params: seq![
            spec_ctx(),
            Param { name: Name::Data, ty: ffi(Pointer::Const, Base::Scalar(array.elements)) },
        ] + spec_dims(array.rank),
        ret: Some(ffi(Pointer::Mut, Base::Array(array))),
    }
}

/// The accessor of the shape of `array`: it returns the sizes, one for each
/// dimension.
pub open spec fn spec_array_shape(array: ArrayType) -> SignatureView {
    SignatureView {
        name: array.spec_fn_shape_ident(),
        params: seq![spec_ctx(), spec_handle(array)],
        ret: Some(ffi(Pointer::Const, Base::Scalar(ValueType::i64))),
    }
}

/// The accessor of the values of `array`: it copies them to a buffer.
pub open spec fn spec_array_values(array: ArrayType) -> SignatureView {
    SignatureView {
        name: array.spec_fn_values_ident(),
        params: seq![
            spec_ctx(),
            spec_handle(array),
            Param { name: Name::Data, ty: ffi(Pointer::Mut, Base::Scalar(array.elements)) },
        ],
        ret: Some(ffi(Pointer::Value, Base::Int)),
    }
}

/// The destructor of `array`.
pub open spec fn spec_array_free(array: ArrayType) -> SignatureView {
    SignatureView {
        name: array.spec_fn_free_ident(),
        params: seq![spec_ctx(), spec_handle(array)],
        ret: Some(ffi(Pointer::Value, Base::Int)),
    }
}

/// The four functions of an array type: constructor, shape, values,
/// destructor.
pub open spec fn spec_array_operations(array: ArrayType) -> Seq<SignatureView> {
    seq![
        spec_array_new(array),
        spec_array_shape(array),
        spec_array_values(array),
        spec_array_free(array),
    ]
}

/// How an entry point takes an input: a scalar by value, an array by
/// pointer.
pub open spec fn spec_input_type(type_: Type) -> FfiType {
    match type_ {
        Type::Value(v) => ffi(Pointer::Value, Base::Scalar(v)),
        Type::Array(a) => ffi(Pointer::Const, Base::Array(a)),
    }
}

/// How an entry point hands out an output: a scalar through a pointer, an
/// array, which the callee allocates, through a pointer to a pointer.
pub open spec fn spec_output_type(type_: Type) -> FfiType {
    match type_ {
        Type::Value(v) => ffi(Pointer::Mut, Base::Scalar(v)),
        Type::Array(a) => ffi(Pointer::MutMut, Base::Array(a)),
    }
}

/// The outputs of an entry point as parameters, in their order.
pub open spec fn spec_outputs(outputs: Seq<Type>) -> Seq<Param> {
    Seq::new(
        outputs.len(),
        |i: int| Param { name: Name::Out(i as usize), ty: spec_output_type(outputs[i]) },
    )
}

/// The inputs of an entry point as parameters, in their order.
pub open spec fn spec_inputs(inputs: Seq<Type>) -> Seq<Param> {
    Seq::new(
        inputs.len(),
        |i: int| Param { name: Name::In(i as usize), ty: spec_input_type(inputs[i]) },
    )
}

/// The function of an entry point: it takes the context, then one parameter
/// for each output, then one for each input, and returns a status.
pub open spec fn spec_entry_operation(entry: EntryPointView) -> SignatureView {
    SignatureView {
        name: entry.futhark_fn_ident(),
        params: seq![spec_ctx()] + spec_outputs(entry.outputs) + spec_inputs(entry.inputs),
        ret: Some(ffi(Pointer::Value, Base::Int)),
    }
}

/// The functions of the array types `arrays`: four for each, type after type.
pub open spec fn spec_arrays_operations(arrays: Seq<ArrayType>) -> Seq<SignatureView> {
    Seq::new(4 * arrays.len(), |k: int| spec_array_operations(arrays[k / 4])[k % 4])
}

/// The functions of the entry points `entries`, one for each.
pub open spec fn spec_entries_operations(entries: Seq<EntryPointView>) -> Seq<SignatureView> {
    Seq::new(entries.len(), |i: int| spec_entry_operation(entries[i]))
}

/// Every function that a backend offers for the library that `manifest`
/// describes: the five of the context, four for each array type, one for
/// each entry point. No target enters into it.
pub open spec fn spec_operations(manifest: ManifestView) -> Seq<SignatureView> {
    spec_lifecycle() + spec_arrays_operations(spec_arrays(manifest.types))
        + spec_entries_operations(manifest.entry_points)
}

fn ctx() -> (param: Param)
    ensures
        param == spec_ctx(),
{
    Param { name: Name::Ctx, ty: FfiType { pointer: Pointer::Mut, base: Base::Context } }
}

fn cfg() -> (param: Param)
    ensures
        param == spec_cfg(),
{
    Param { name: Name::Cfg, ty: FfiType { pointer: Pointer::Mut, base: Base::Config } }
}

fn handle(array: ArrayType) -> (param: Param)
    ensures
        param == spec_handle(array),
{
    Param { name: Name::Array, ty: FfiType { pointer: Pointer::Mut, base: Base::Array(array) } }
}

fn status() -> (ret: Option<FfiType>)
    ensures
        ret == Some(ffi(Pointer::Value, Base::Int)),
{
    Some(FfiType { pointer: Pointer::Value, base: Base::Int })
}

fn lifecycle() -> (operations: Vec<Signature>)
    ensures
        views(operations@) == spec_lifecycle(),
{
    let operations = vec![
        Signature {
            name: "futhark_context_config_new".to_owned(),
            params: Vec::new(),
            ret: Some(FfiType { pointer: Pointer::Mut, base: Base::Config }),
        },
        Signature {
            name: "futhark_context_config_free".to_owned(),
            params: vec![cfg()],
            ret: None,
        },
        Signature {
            name: "futhark_context_new".to_owned(),
            params: vec![cfg()],
            ret: Some(FfiType { pointer: Pointer::Mut, base: Base::Context }),
        },
        Signature { name: "futhark_context_free".to_owned(), params: vec![ctx()], ret: None },
        Signature { name: "futhark_context_sync".to_owned(), params: vec![ctx()], ret: status() },
    ];
    proof {
        let got = views(operations@);
        let want = spec_lifecycle();
        assert(got.len() == want.len());
        assert(got[0].params =~= want[0].params);
        assert(got[1].params =~= want[1].params);
        assert(got[2].params =~= want[2].params);
        assert(got[3].params =~= want[3].params);
        assert(got[4].params =~= want[4].params);
        assert(got =~= want);
    }
    operations
}

/// Declares the four functions of an array type.
pub fn trait_array_template(array: &ArrayType) -> (operations: Vec<Signature>)
    ensures
        views(operations@) == spec_array_operations(*array),
{
    let array = *array;
    let mut new_params = vec![
        ctx(),
        Param {
            name: Name::Data,
            ty: FfiType { pointer: Pointer::Const, base: Base::Scalar(array.elements) },
        },
    ];
    let mut i: usize = 0;
    while i < array.rank
        invariant
            i <= array.rank,
            new_params@.len() == 2 + i,
            new_params@[0] == spec_ctx(),
            new_params@[1] == (Param {
                name: Name::Data,
                ty: ffi(Pointer::Const, Base::Scalar(array.elements)),
            }),
            forall|j: int| 0 <= j < i ==> #[trigger] new_params@[2 + j] == spec_dims(array.rank)[j],
        decreases array.rank - i,
    {
        new_params.push(
            Param {
                name: Name::Dim(i),
                ty: FfiType { pointer: Pointer::Value, base: Base::Scalar(ValueType::i64) },
            },
        );
        i = i + 1;
    }
    proof {
        let want = spec_array_new(array).params;
        assert(new_params@.len() == want.len());
        assert forall|j: int| 0 <= j < new_params@.len() implies new_params@[j] == want[j] by {
            if j >= 2 {
                assert(new_params@[2 + (j - 2)] == spec_dims(array.rank)[j - 2]);
            }
        }
        assert(new_params@ =~= want);
    }
    let operations = vec![
        Signature {
            name: array.fn_new_ident(),
            params: new_params,
            ret: Some(FfiType { pointer: Pointer::Mut, base: Base::Array(array) }),
        },
        Signature {
            name: array.fn_shape_ident(),
            params: vec![ctx(), handle(array)],
            ret: Some(
                FfiType { pointer: Pointer::Const, base: Base::Scalar(ValueType::i64) },
            ),
        },
        Signature {
            name: array.fn_values_ident(),
            params: vec![
                ctx(),
                handle(array),
                Param {
                    name: Name::Data,
                    ty: FfiType { pointer: Pointer::Mut, base: Base::Scalar(array.elements) },
                },
            ],
            ret: status(),
        },
        Signature {
            name: array.fn_free_ident(),
            params: vec![ctx(), handle(array)],
            ret: status(),
        },
    ];
    proof {
        let got = views(operations@);
        let want = spec_array_operations(array);
        assert(got.len() == want.len());
        assert(got[0].params =~= want[0].params);
        assert(got[1].params =~= want[1].params);
        assert(got[2].params =~= want[2].params);
        assert(got[3].params =~= want[3].params);
        assert(got =~= want);
    }
    operations
}

/// Declares the function of an entry point.
pub fn trait_entry_point_template(ep: &EntryPoint) -> (operation: Signature)
    ensures
        operation@ == spec_entry_operation(ep@),
{
    let mut params = vec![ctx()];
    let mut i: usize = 0;
    while i < ep.outputs.len()
        invariant
            i <= ep.outputs.len(),
            params@.len() == 1 + i,
            params@[0] == spec_ctx(),
            forall|j: int| 0 <= j < i ==> #[trigger] params@[1 + j] == spec_outputs(ep.outputs@)[j],
        decreases ep.outputs.len() - i,
    {
        let ty = match ep.outputs[i] {
            Type::Value(v) => FfiType { pointer: Pointer::Mut, base: Base::Scalar(v) },
            Type::Array(a) => FfiType { pointer: Pointer::MutMut, base: Base::Array(a) },
        };
        params.push(Param { name: Name::Out(i), ty });
        i = i + 1;
    }
    let outputs = ep.outputs.len();
    let mut k: usize = 0;
    while k < ep.inputs.len()
        invariant
            k <= ep.inputs.len(),
            outputs == ep.outputs.len(),
            params@.len() == 1 + outputs + k,
            params@[0] == spec_ctx(),
            forall|j: int|
                0 <= j < outputs ==> #[trigger] params@[1 + j] == spec_outputs(ep.outputs@)[j],
            forall|j: int|
                0 <= j < k ==> #[trigger] params@[1 + outputs + j] == spec_inputs(ep.inputs@)[j],
        decreases ep.inputs.len() - k,
    {
        let ty = match ep.inputs[k] {
            Type::Value(v) => FfiType { pointer: Pointer::Value, base: Base::Scalar(v) },
            Type::Array(a) => FfiType { pointer: Pointer::Const, base: Base::Array(a) },
        };
        params.push(Param { name: Name::In(k), ty });
        k = k + 1;
    }
    proof {
        let want = spec_entry_operation(ep@).params;
        assert(params@.len() == want.len());
        assert forall|j: int| 0 <= j < params@.len() implies params@[j] == want[j] by {
            if j == 0 {
            } else if j < 1 + outputs {
                assert(params@[1 + (j - 1)] == spec_outputs(ep.outputs@)[j - 1]);
            } else {
                assert(params@[1 + outputs + (j - 1 - outputs)] == spec_inputs(ep.inputs@)[j - 1
                    - outputs]);
            }
        }
        assert(params@ =~= want);
    }
    Signature { name: ep.futhark_fn_ident(), params, ret: status() }
}

/// Every function that a backend offers, in the order of
/// [`spec_operations`].
fn operations(manifest: &Manifest) -> (operations: Vec<Signature>)
    ensures
        views(operations@) == spec_operations(manifest@),
{
    let mut operations = lifecycle();
    let arrays = manifest.arrays();
    let mut i: usize = 0;
    while i < arrays.len()
        invariant
            i <= arrays.len(),
            arrays@ == spec_arrays(manifest.types@),
            views(operations@) == spec_lifecycle() + spec_arrays_operations(arrays@.take(i as int)),
        decreases arrays.len() - i,
    {
        let ghost before = views(operations@);
        let mut four = trait_array_template(&arrays[i]);
        let ghost added = views(four@);
        operations.append(&mut four);
        proof {
            assert(views(operations@) =~= before + added);
            let done = arrays@.take(i as int);
            let next = arrays@.take(i + 1);
            assert(spec_arrays_operations(next) =~= spec_arrays_operations(done) + added) by {
                assert forall|k: int| 0 <= k < 4 * next.len() implies spec_arrays_operations(
                    next,
                )[k] == (spec_arrays_operations(done) + added)[k] by {
                    if k < 4 * done.len() {
                        assert(next[k / 4] == done[k / 4]);
                    } else {
                        assert(k / 4 == i);
                        assert(next[k / 4] == arrays@[i as int]);
                        assert(k % 4 == k - 4 * done.len());
                    }
                }
            }
        }
        i = i + 1;
    }
    assert(arrays@.take(i as int) =~= arrays@);
    let mut k: usize = 0;
    let ghost head = views(operations@);
    while k < manifest.entry_points.len()
        invariant
            k <= manifest.entry_points.len(),
            head == spec_lifecycle() + spec_arrays_operations(spec_arrays(manifest.types@)),
            views(operations@) == head + spec_entries_operations(
                manifest@.entry_points.take(k as int),
            ),
        decreases manifest.entry_points.len() - k,
    {
        let ghost before = views(operations@);
        let operation = trait_entry_point_template(&manifest.entry_points[k]);
        operations.push(operation);
        proof {
            assert(manifest@.entry_points[k as int] == manifest.entry_points@[k as int]@);
            assert(views(operations@) =~= before.push(operation@));
            assert(spec_entries_operations(manifest@.entry_points.take(k + 1))
                =~= spec_entries_operations(manifest@.entry_points.take(k as int)).push(
                operation@,
            ));
        }
        k = k + 1;
    }
    assert(manifest@.entry_points.take(k as int) =~= manifest@.entry_points);
    operations
}

/// The interface that every backend implements.
#[derive(Debug, Clone)]
pub struct BackendTrait {
    pub methods: Vec<Signature>,
}

impl BackendTrait {
    /// The functions that the interface declares.
    pub open spec fn operations(self) -> Seq<SignatureView> {
        views(self.methods@)
    }
}

/// Declares the interface that every backend implements for the library
/// that `manifest` describes.
pub fn trait_template(manifest: &Manifest) -> (backend: BackendTrait)
    ensures
        backend.operations() == spec_operations(manifest@),
{
    BackendTrait { methods: operations(manifest) }
}

impl SignatureView {
    /// The declaration of this function in the interface.
    pub open spec fn declaration(self) -> Seq<char> {
        self.header() + ";\n"@
    }
}

/// The declarations of `operations`, one after the other.
pub open spec fn spec_declarations(operations: Seq<SignatureView>) -> Seq<Seq<char>> {
    Seq::new(operations.len(), |i: int| operations[i].declaration())
}

/// The text of the interface that declares `operations`.
pub open spec fn spec_trait_text(operations: Seq<SignatureView>) -> Seq<char> {
    "pub trait Backend {\n"@ + spec_concatenate(spec_declarations(operations)) + "}\n"@
}

impl BackendTrait {
    /// Writes the interface as Rust source.
    pub fn render(&self) -> (text: String)
        ensures
            text@ == spec_trait_text(self.operations()),
    {
        let mut lines: Vec<String> = Vec::new();
        let mut i: usize = 0;
        while i < self.methods.len()
            invariant
                i <= self.methods.len(),
                lines@.len() == i,
                forall|j: int|
                    0 <= j < i ==> (#[trigger] lines@[j])@ == self.methods@[j]@.declaration(),
            decreases self.methods.len() - i,
        {
            let mut line = self.methods[i].header();
            line.append(";\n");
            lines.push(line);
            i = i + 1;
        }
        assert(views(lines@) =~= spec_declarations(self.operations()));
        let mut text = "pub trait Backend {\n".to_owned();
        text.append(concatenate(&lines).as_str());
        text.append("}\n");
        text
    }
}

/// An argument as a backend passes it on to the raw function: under its
/// name, and cast where its type is one of the opaque types.
#[derive(Debug, Clone, Copy, PartialEq, Eq, Structural)]
pub struct Passed {
    pub name: Name,
    pub cast: Option<FfiType>,
}

/// A function of a backend: it hands its arguments to the raw function of
/// the same name and hands back what that returns.
#[derive(Debug, Clone)]
pub struct Forward {
    pub signature: Signature,
    pub arguments: Vec<Passed>,
    pub result_cast: Option<FfiType>,
}

/// A [`Forward`] as a value of mathematics.
pub struct ForwardView {
    pub signature: SignatureView,
    pub arguments: Seq<Passed>,
    pub result_cast: Option<FfiType>,
}

impl View for Forward {
    type V = ForwardView;

    open spec fn view(&self) -> ForwardView {
        ForwardView {
            signature: self.signature@,
            arguments: self.arguments@,
            result_cast: self.result_cast,
        }
    }
}

/// How `param` is passed on: a pointer to an opaque type is reinterpreted
/// as a pointer to the raw type of the same name, anything else goes as it
/// is.
pub open spec fn spec_pass(param: Param) -> Passed {
    Passed {
        name: param.name,
        cast: if param.ty.base.spec_is_opaque() {
            Some(param.ty)
        } else {
            None
        },
    }
}

/// The type that the result of the raw function is reinterpreted as: the
/// common type, where it is a pointer to an opaque type.
pub open spec fn spec_result_cast(ret: Option<FfiType>) -> Option<FfiType> {
    match ret {
        Some(ty) => if ty.base.spec_is_opaque() {
            Some(ty)
        } else {
            None
        },
        None => None,
    }
}

/// The implementation of `signature`: every parameter is passed on, in the
/// order of the signature.
pub open spec fn spec_forward(signature: SignatureView) -> ForwardView {
    ForwardView {
        signature,
        arguments: Seq::new(signature.params.len(), |i: int| spec_pass(signature.params[i])),
        result_cast: spec_result_cast(signature.ret),
    }
}

/// The implementations of `operations`, one for one.
pub open spec fn spec_forwards(operations: Seq<SignatureView>) -> Seq<ForwardView> {
    Seq::new(operations.len(), |i: int| spec_forward(operations[i]))
}

fn forward(signature: Signature) -> (method: Forward)
    ensures
        method@ == spec_forward(signature@),
{
    let mut arguments: Vec<Passed> = Vec::new();
    let mut i: usize = 0;
    while i < signature.params.len()
        invariant
            i <= signature.params.len(),
            arguments@.len() == i,
            forall|j: int| 0 <= j < i ==> #[trigger] arguments@[j] == spec_pass(signature.params@[j]),
        decreases signature.params.len() - i,
    {
        let param = signature.params[i];
        let cast = if param.ty.base.is_opaque() {
            Some(param.ty)
        } else {
            None
        };
        arguments.push(Passed { name: param.name, cast });
        i = i + 1;
    }
    let result_cast = match signature.ret {
        Some(ty) => if ty.base.is_opaque() {
            Some(ty)
        } else {
            None
        },
        None => None,
    };
    assert(arguments@ =~= spec_forward(signature@).arguments);
    Forward { signature, arguments, result_cast }
}

fn forward_all(operations: Vec<Signature>) -> (methods: Vec<Forward>)
    ensures
        views(methods@) == spec_forwards(views(operations@)),
{
    let ghost all = views(operations@);
    let mut operations = operations;
    let mut reversed: Vec<Forward> = Vec::new();
    while operations.len() > 0
        invariant
            operations@.len() + reversed@.len() == all.len(),
            views(operations@) == all.take(operations@.len() as int),
            forall|j: int|
                0 <= j < reversed@.len() ==> (#[trigger] reversed@[j])@ == spec_forward(
                    all[all.len() - 1 - j],
                ),
        decreases operations.len(),
    {
        let ghost before = views(operations@);
        let last = operations.pop().unwrap();
        assert(last@ == before[before.len() - 1]);
        assert(views(operations@) =~= all.take(operations@.len() as int));
        reversed.push(forward(last));
    }
    let mut methods: Vec<Forward> = Vec::new();
    while reversed.len() > 0
        invariant
            methods@.len() + reversed@.len() == all.len(),
            forall|j: int|
                0 <= j < reversed@.len() ==> (#[trigger] reversed@[j])@ == spec_forward(
                    all[all.len() - 1 - j],
                ),
            forall|j: int|
                0 <= j < methods@.len() ==> (#[trigger] methods@[j])@ == spec_forward(all[j]),
        decreases reversed.len(),
    {
        let next = reversed.pop().unwrap();
        methods.push(next);
    }
    assert(views(methods@) =~= spec_forwards(all));
    methods
}

/// Implements the four functions of an array type.
pub fn impl_array_template(array: &ArrayType) -> (methods: Vec<Forward>)
    ensures
        views(methods@) == spec_forwards(spec_array_operations(*array)),
{
    forward_all(trait_array_template(array))
}

/// Implements the function of an entry point.
pub fn impl_entry_point_template(ep: &EntryPoint) -> (method: Forward)
    ensures
        method@ == spec_forward(spec_entry_operation(ep@)),
{
    forward(trait_entry_point_template(ep))
}

/// What opens the module of the raw declarations of a backend.
pub const SYS_ALLOW: &'static str =
    "#![allow(\n    non_upper_case_globals,\n    non_camel_case_types,\n    non_snake_case,\n    improper_ctypes,\n    deref_nullptr,\n    dead_code,\n    clippy::approx_constant,\n    clippy::upper_case_acronyms\n)]\n";

/// The body of the module of raw declarations of `target`: it takes in the
/// declarations that were generated for the target's header.
pub open spec fn spec_sys_text(target: Target) -> Seq<char> {
    SYS_ALLOW@ + "include!(concat!(env!(\"OUT_DIR\"), \"/futhark/\", \""@ + target.spec_name()
        + "\", \"/futhark_lib.rs\"));\n"@
}

/// Writes the body of the module of raw declarations of `target`.
pub fn sys_template(target: Target) -> (text: String)
    ensures
        text@ == spec_sys_text(target),
{
    let mut text = SYS_ALLOW.to_owned();
    text.append("include!(concat!(env!(\"OUT_DIR\"), \"/futhark/\", \"");
    text.append(target.name());
    text.append("\", \"/futhark_lib.rs\"));\n");
    text
}

impl Passed {
    /// An argument as the call writes it.
    pub open spec fn spec_text(self) -> Seq<char> {
        match self.cast {
            Some(ty) => self.name.spec_text() + " as "@ + ty.spec_text(RAW@),
            None => self.name.spec_text(),
        }
    }

    /// An argument as the call writes it.
    pub fn text(&self) -> (text: String)
        ensures
            text@ == self.spec_text(),
    {
        let mut text = self.name.text();
        match self.cast {
            Some(ty) => {
                text.append(" as ");
                text.append(ty.text(RAW).as_str());
            },
            None => {},
        }
        text
    }
}

/// The texts of `arguments`, one for one.
pub open spec fn spec_argument_texts(arguments: Seq<Passed>) -> Seq<Seq<char>> {
    Seq::new(arguments.len(), |i: int| arguments[i].spec_text())
}

/// What stands behind the call of a raw function whose result is cast.
pub open spec fn spec_cast_text(cast: Option<FfiType>) -> Seq<char> {
    match cast {
        Some(ty) => " as "@ + ty.spec_text(COMMON@),
        None => ""@,
    }
}

impl ForwardView {
    /// The function with its body: one call of the raw function of the same
    /// name.
    pub open spec fn text(self) -> Seq<char> {
        self.signature.header() + " {\n"@ + "sys::"@ + self.signature.name + "("@ + spec_join(
            spec_argument_texts(self.arguments),
            ", "@,
        ) + ")"@ + spec_cast_text(self.result_cast) + "\n}\n"@
    }
}

impl Forward {
    /// Writes the function as Rust source.
    pub fn render(&self) -> (text: String)
        ensures
            text@ == self@.text(),
    {
        let mut arguments: Vec<String> = Vec::new();
        let mut i: usize = 0;
        while i < self.arguments.len()
            invariant
                i <= self.arguments.len(),
                arguments@.len() == i,
                forall|j: int|
                    0 <= j < i ==> (#[trigger] arguments@[j])@ == self.arguments@[j].spec_text(),
            decreases self.arguments.len() - i,
        {
            arguments.push(self.arguments[i].text());
            i = i + 1;
        }
        assert(views(arguments@) =~= spec_argument_texts(self.arguments@));
        let mut text = self.signature.header();
        text.append(" {\n");
        text.append("sys::");
        text.append(self.signature.name.as_str());
        text.append("(");
        text.append(join(&arguments, ", ").as_str());
        text.append(")");
        match self.result_cast {
            Some(ty) => {
                let mut cast = " as ".to_owned();
                cast.append(ty.text(COMMON).as_str());
                text.append(cast.as_str());
            },
            None => {
                text.append("");
            },
        }
        text.append("\n}\n");
        text
    }
}

/// The implementation of the interface for one target.
#[derive(Debug, Clone)]
pub struct BackendImpl {
    pub target: Target,
    pub methods: Vec<Forward>,
}

/// A [`BackendImpl`] as a value of mathematics.
pub struct BackendImplView {
    pub target: Target,
    pub methods: Seq<ForwardView>,
}

impl View for BackendImpl {
    type V = BackendImplView;

    open spec fn view(&self) -> BackendImplView {
        BackendImplView { target: self.target, methods: views(self.methods@) }
    }
}

/// The implementation of the interface for `backend`: every function that
/// the interface declares for `manifest`, in the same order and with the
/// same signature, passed on to the raw function.
pub open spec fn spec_impl(manifest: ManifestView, backend: Target) -> BackendImplView {
    BackendImplView { target: backend, methods: spec_forwards(spec_operations(manifest)) }
}

/// Implements the interface for `backend`.
pub fn impl_template(manifest: &Manifest, backend: Target) -> (implementation: BackendImpl)
    ensures
        implementation@ == spec_impl(manifest@, backend),
{
    BackendImpl { target: backend, methods: forward_all(operations(manifest)) }
}

/// The texts of `methods`, one for one.
pub open spec fn spec_method_texts(methods: Seq<ForwardView>) -> Seq<Seq<char>> {
    Seq::new(methods.len(), |i: int| methods[i].text())
}

impl BackendImplView {
    /// The marker type of the backend, the module of its raw declarations
    /// and the implementation of the interface.
    pub open spec fn text(self) -> Seq<char> {
        "pub struct "@ + self.target.spec_struct_name() + ";\nmod sys {\n"@ + spec_sys_text(
            self.target,
        ) + "}\nimpl Backend for "@ + self.target.spec_struct_name() + " {\n"@ + spec_concatenate(
            spec_method_texts(self.methods),
        ) + "}\n"@
    }
}

impl BackendImpl {
    /// Writes the backend as Rust source.
    pub fn render(&self) -> (text: String)
        ensures
            text@ == self@.text(),
    {
        let mut methods: Vec<String> = Vec::new();
        let mut i: usize = 0;
        while i < self.methods.len()
            invariant
                i <= self.methods.len(),
                methods@.len() == i,
                forall|j: int| 0 <= j < i ==> (#[trigger] methods@[j])@ == self.methods@[j]@.text(),
            decreases self.methods.len() - i,
        {
            methods.push(self.methods[i].render());
            i = i + 1;
        }
        assert(views(methods@) =~= spec_method_texts(self@.methods));
        let mut text = "pub struct ".to_owned();
        text.append(self.target.struct_name());
        text.append(";\nmod sys {\n");
        text.append(sys_template(self.target).as_str());
        text.append("}\nimpl Backend for ");
        text.append(self.target.struct_name());
        text.append(" {\n");
        text.append(concatenate(&methods).as_str());
        text.append("}\n");
        text
    }
}

/// An implementation declares the functions of the interface, each with the
/// signature that the interface gives it: the two are generated apart and
/// meet by name.
pub proof fn lemma_impl_matches_trait(manifest: ManifestView, backend: Target)
    ensures
        spec_impl(manifest, backend).methods.len() == spec_operations(manifest).len(),
        forall|i: int|
            0 <= i < spec_operations(manifest).len() ==> (#[trigger] spec_impl(
                manifest,
                backend,
            ).methods[i]).signature == spec_operations(manifest)[i],
{
}

/// Every argument of a backend's function is one of its parameters, in the
/// same place and under the same name.
pub proof fn lemma_forward_passes_all(signature: SignatureView)
    ensures
        spec_forward(signature).arguments.len() == signature.params.len(),
        forall|i: int|
            0 <= i < signature.params.len() ==> (#[trigger] spec_forward(signature).arguments[i]).name
                == signature.params[i].name,
{
}

/// The interface has five functions for the context, four for each array
/// type and one for each entry point.
pub proof fn lemma_operations_count(manifest: ManifestView)
    ensures
        spec_operations(manifest).len() == 5 + 4 * spec_arrays(manifest.types).len()
            + manifest.entry_points.len(),
{
}

} // verus!
