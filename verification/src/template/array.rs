use vstd::prelude::*;

use crate::manifest::ArrayType;
use crate::syntax::Name;
use crate::text::{concatenate, decimal, spec_concatenate, spec_decimal, views};

verus! {

/// The safe wrapper of an array type, with the names that it is written
/// with.
#[derive(Debug, Clone)]
pub struct ArrayWrapper {
    /// The array type that is wrapped.
    pub array: ArrayType,
    /// The name of the wrapper.
    pub name: String,
    /// The name of the opaque type of the handle.
    pub handle: String,
    /// The name of the backend's constructor.
    pub constructor: String,
    /// The name of the backend's accessor of the shape.
    pub shape: String,
    /// The name of the backend's accessor of the values.
    pub values: String,
    /// The name of the backend's destructor.
    pub destructor: String,
}

/// An [`ArrayWrapper`] as a value of mathematics.
pub struct ArrayWrapperView {
    pub array: ArrayType,
    pub name: Seq<char>,
    pub handle: Seq<char>,
    pub constructor: Seq<char>,
    pub shape: Seq<char>,
    pub values: Seq<char>,
    pub destructor: Seq<char>,
}

impl View for ArrayWrapper {
    type V = ArrayWrapperView;

    open spec fn view(&self) -> ArrayWrapperView {
        ArrayWrapperView {
            array: self.array,
            name: self.name@,
            handle: self.handle@,
            constructor: self.constructor@,
            shape: self.shape@,
            values: self.values@,
            destructor: self.destructor@,
        }
    }
}

/// The wrapper of `array`: every name is the one that the array type
/// resolves to.
pub open spec fn spec_wrapper(array: ArrayType) -> ArrayWrapperView {
    ArrayWrapperView {
        array,
        name: array.spec_struct_ident(),
        handle: array.spec_type_ident(),
        constructor: array.spec_fn_new_ident(),
        shape: array.spec_fn_shape_ident(),
        values: array.spec_fn_values_ident(),
        destructor: array.spec_fn_free_ident(),
    }
}

/// Lays out the safe wrapper of an array type.
pub fn template(typ: &ArrayType) -> (wrapper: ArrayWrapper)
    ensures
        wrapper@ == spec_wrapper(*typ),
{
    ArrayWrapper {
        array: *typ,
        name: typ.struct_ident(),
        handle: typ.type_ident(),
        constructor: typ.fn_new_ident(),
        shape: typ.fn_shape_ident(),
        values: typ.fn_values_ident(),
        destructor: typ.fn_free_ident(),
    }
}

/// For each of the `rank` dimensions, in their order: `before`, the name of
/// the dimension's size, `after`.
pub open spec fn spec_dim_pieces(rank: usize, before: Seq<char>, after: Seq<char>) -> Seq<
    Seq<char>,
> {
    Seq::new(rank as nat, |i: int| before + Name::Dim(i as usize).spec_text() + after)
}

fn dim_pieces(rank: usize, before: &str, after: &str) -> (text: String)
    ensures
        text@ == spec_concatenate(spec_dim_pieces(rank, before@, after@)),
{
    let mut pieces: Vec<String> = Vec::new();
    let mut i: usize = 0;
    while i < rank
        invariant
            i <= rank,
            pieces@.len() == i,
            forall|j: int|
                0 <= j < i ==> (#[trigger] pieces@[j])@ == spec_dim_pieces(rank, before@, after@)[j],
        decreases rank - i,
    {
        let mut piece = before.to_owned();
        piece.append(Name::Dim(i).text().as_str());
        piece.append(after);
        pieces.push(piece);
        i = i + 1;
    }
    assert(views(pieces@) =~= spec_dim_pieces(rank, before@, after@));
    concatenate(&pieces)
}

/// What stands between the summary of a wrapper and its name.
pub const STRUCT_DOC: &'static str =
    "///\n/// # Immutability\n/// Futhark arrays can not be mutated once they've been created.\n#[allow(non_camel_case_types)]\npub struct ";

/// What opens the constructor of a wrapper, up to the type of the
/// elements.
pub const NEW_DOC: &'static str =
    "    /// Create a new Futhark array from a flat buffer.\n    ///\n    /// Multi-dimensional arrays are expected in row-major form.\n    #[allow(clippy::identity_op)]\n    pub fn new(context: &'c Context<B>, data: &[";

/// What opens the accessor of the shape, up to the name of the backend's
/// function.
pub const SHAPE_DOC: &'static str =
    "    /// Returns the arrays shape.\n    ///\n    /// The length of `array.shape()` is its rank.\n    pub fn shape(&self) -> &[usize] {\n        unsafe {\n            let shape = B::";

/// What opens the accessor of the values, up to the type of the elements.
pub const VALUES_DOC: &'static str =
    "    /// Read the arrays values to a buffer.\n    ///\n    /// The `out` buffer will have the length of the `shape`s product.\n    /// Multi-dimensional arrays are written in row-major form.\n    ///\n    /// # Important\n    /// Before calling this, you most likely want to call [`Context::sync`] first.\n    /// See the documentation of [`Context::sync`] for more details.\n    pub fn values(&self, out: &mut Vec<";

/// The accessor of the values from the type of the elements to the name
/// of the backend's function: the buffer is emptied and gets room for
/// every value.
pub const VALUES_BODY: &'static str =
    ">) {\n        let s = self.shape();\n        let len = s.iter().product::<usize>();\n\n        out.clear();\n        out.reserve(len);\n        unsafe {\n            B::";

/// What closes the accessor of the values: the backend fills the buffer,
/// and the context is synchronised.
pub const VALUES_END: &'static str =
    "(self.context.inner, self.inner, out.as_mut_ptr());\n            out.set_len(len);\n        }\n\n        assert!(self.context.sync());\n    }\n";

/// The release of a wrapper from its name to the name of the backend's
/// function.
pub const DROP_BODY: &'static str =
    "<'_, B> {\n    fn drop(&mut self) {\n        if !self.inner.is_null() {\n            unsafe {\n                B::";

impl ArrayWrapperView {
    /// The declaration of the wrapper: it borrows the context that it came
    /// from and owns one handle.
    pub open spec fn struct_text(self) -> Seq<char> {
        "/// Array of type `"@ + self.array.elements.spec_futhark_name() + "` and rank `"@
            + spec_decimal(self.array.rank as nat) + "`.\n"@ + STRUCT_DOC@ + self.name
            + "<'c, B: Backend> {\n    context: &'c Context<B>,\n    pub(crate) inner: *mut types::"@
            + self.handle + ",\n}\n\n"@
    }

    /// The head of the constructor: it takes the context, the values in one
    /// flat buffer and one size for each dimension.
    pub open spec fn new_head_text(self) -> Seq<char> {
        NEW_DOC@ + self.array.elements.spec_rust_name() + "]"@ + spec_concatenate(
            spec_dim_pieces(self.array.rank, ", "@, ": usize"@),
        ) + ") -> Self {\n"@
    }

    /// The first statement of the constructor: it stops the program unless
    /// the product of the sizes is the length of the buffer.
    pub open spec fn new_check_text(self) -> Seq<char> {
        "        assert_eq!("@ + spec_concatenate(spec_dim_pieces(self.array.rank, ""@, " * "@))
            + "1, data.len());\n"@
    }

    /// The call of the backend's constructor, and the statement that stops
    /// the program where no array came back.
    pub open spec fn new_call_text(self) -> Seq<char> {
        "\n        let inner = unsafe {\n            B::"@ + self.constructor
            + "(context.inner, data.as_ptr()"@ + spec_concatenate(
            spec_dim_pieces(self.array.rank, ", "@, ".try_into().unwrap()"@),
        ) + ")\n        };\n\n        assert!(!inner.is_null());\n        "@ + self.name
            + " { context, inner }\n    }\n\n"@
    }

    /// The constructor. The check of the sizes stands before the call of
    /// the backend.
    pub open spec fn new_text(self) -> Seq<char> {
        self.new_head_text() + self.new_check_text() + self.new_call_text()
    }

    /// The accessor of the shape: as many sizes as the array has
    /// dimensions.
    pub open spec fn shape_text(self) -> Seq<char> {
        SHAPE_DOC@ + self.shape
            + "(self.context.inner, self.inner);\n            std::slice::from_raw_parts(shape as *const usize, "@
            + spec_decimal(self.array.rank as nat) + ")\n        }\n    }\n\n"@
    }

    /// The accessor of the values: it makes room for the product of the
    /// sizes, lets the backend fill the buffer and waits for the context.
    pub open spec fn values_text(self) -> Seq<char> {
        VALUES_DOC@ + self.array.elements.spec_rust_name() + VALUES_BODY@ + self.values
            + VALUES_END@
    }

    /// The release of the handle when the wrapper is dropped; a wrapper
    /// that never got a handle releases nothing.
    pub open spec fn drop_text(self) -> Seq<char> {
        "impl<B: Backend> Drop for "@ + self.name + DROP_BODY@ + self.destructor
            + "(self.context.inner, self.inner);\n            }\n        }\n    }\n}\n\n"@
    }

    /// The wrapper as Rust source.
    pub open spec fn text(self) -> Seq<char> {
        self.struct_text() + "impl<'c, B: Backend> "@ + self.name + "<'c, B> {\n"@
            + self.new_text() + self.shape_text() + self.values_text() + "}\n\n"@
            + self.drop_text()
    }
}

impl ArrayWrapper {
    fn struct_text(&self) -> (text: String)
        ensures
            text@ == self@.struct_text(),
    {
        let mut text = "/// Array of type `".to_owned();
        text.append(self.array.elements.futhark_name());
        text.append("` and rank `");
        text.append(decimal(self.array.rank).as_str());
        text.append("`.\n");
        text.append(STRUCT_DOC);
        text.append(self.name.as_str());
        text.append(
            "<'c, B: Backend> {\n    context: &'c Context<B>,\n    pub(crate) inner: *mut types::",
        );
        text.append(self.handle.as_str());
        text.append(",\n}\n\n");
        text
    }

    fn new_text(&self) -> (text: String)
        ensures
            text@ == self@.new_text(),
    {
        let rank = self.array.rank;
        let mut head = NEW_DOC.to_owned();
        head.append(self.array.elements.rust_name());
        head.append("]");
        head.append(dim_pieces(rank, ", ", ": usize").as_str());
        head.append(") -> Self {\n");
        let mut check = "        assert_eq!(".to_owned();
        check.append(dim_pieces(rank, "", " * ").as_str());
        check.append("1, data.len());\n");
        let mut call = "\n        let inner = unsafe {\n            B::".to_owned();
        call.append(self.constructor.as_str());
        call.append("(context.inner, data.as_ptr()");
        call.append(dim_pieces(rank, ", ", ".try_into().unwrap()").as_str());
        call.append(")\n        };\n\n        assert!(!inner.is_null());\n        ");
        call.append(self.name.as_str());
        call.append(" { context, inner }\n    }\n\n");
        head.append(check.as_str());
        head.append(call.as_str());
        head
    }

    fn shape_text(&self) -> (text: String)
        ensures
            text@ == self@.shape_text(),
    {
        let mut text = SHAPE_DOC.to_owned();
        text.append(self.shape.as_str());
        text.append(
            "(self.context.inner, self.inner);\n            std::slice::from_raw_parts(shape as *const usize, ",
        );
        text.append(decimal(self.array.rank).as_str());
        text.append(")\n        }\n    }\n\n");
        text
    }

    fn values_text(&self) -> (text: String)
        ensures
            text@ == self@.values_text(),
    {
        let mut text = VALUES_DOC.to_owned();
        text.append(self.array.elements.rust_name());
        text.append(VALUES_BODY);
        text.append(self.values.as_str());
        text.append(VALUES_END);
        text
    }

    fn drop_text(&self) -> (text: String)
        ensures
            text@ == self@.drop_text(),
    {
        let mut text = "impl<B: Backend> Drop for ".to_owned();
        text.append(self.name.as_str());
        text.append(DROP_BODY);
        text.append(self.destructor.as_str());
        text.append("(self.context.inner, self.inner);\n            }\n        }\n    }\n}\n\n");
        text
    }

    /// Writes the wrapper as Rust source.
    pub fn render(&self) -> (text: String)
        ensures
            text@ == self@.text(),
    {
        let mut text = self.struct_text();
        text.append("impl<'c, B: Backend> ");
        text.append(self.name.as_str());
        text.append("<'c, B> {\n");
        text.append(self.new_text().as_str());
        text.append(self.shape_text().as_str());
        text.append(self.values_text().as_str());
        text.append("}\n\n");
        text.append(self.drop_text().as_str());
        text
    }
}

/// A wrapper checks the sizes before anything else: in its constructor,
/// what stands before the call of the backend is the head of the function
/// and the check that the product of the sizes is the length of the
/// buffer. A buffer of another length stops the program before the
/// backend is reached.
pub proof fn lemma_check_stands_before_call(array: ArrayType)
    ensures
        spec_wrapper(array).new_text() == spec_wrapper(array).new_head_text() + spec_wrapper(
            array,
        ).new_check_text() + spec_wrapper(array).new_call_text(),
        spec_wrapper(array).new_check_text() == "        assert_eq!("@ + spec_concatenate(
            spec_dim_pieces(array.rank, ""@, " * "@),
        ) + "1, data.len());\n"@,
{
}

} // verus!
