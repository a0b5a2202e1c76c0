use vstd::prelude::*;

verus! {

/// The fields that a manifest is read by.
#[derive(Debug, Clone, Copy, PartialEq, Eq, Structural)]
pub enum Field {
    Types,
    EntryPoints,
    Kind,
    ElemType,
    Rank,
    Inputs,
    Outputs,
    Type,
}

/// Why a manifest was turned down.
#[derive(Debug, Clone)]
pub enum ManifestError {
    /// The text is not a JSON document.
    InvalidJson,
    /// `owner` lacks `field`, or holds a value of the wrong shape there. The
    /// owner of a top-level field is the empty name.
    MissingField { owner: String, field: Field },
    /// The type `name` is of a kind other than `array`.
    UnsupportedKind { name: String, kind: String },
    /// No scalar type is called `name`.
    UnknownValueType { name: String },
    /// The rank of the array type `name` is negative or does not fit a
    /// `usize`.
    InvalidRank { name: String },
    /// The entry point `entry_point` names a type that was not declared.
    UnknownType { entry_point: String, name: String },
}

/// A [`ManifestError`] with its names as character sequences.
pub enum ManifestErrorView {
    InvalidJson,
    MissingField { owner: Seq<char>, field: Field },
    UnsupportedKind { name: Seq<char>, kind: Seq<char> },
    UnknownValueType { name: Seq<char> },
    InvalidRank { name: Seq<char> },
    UnknownType { entry_point: Seq<char>, name: Seq<char> },
}

impl View for ManifestError {
    type V = ManifestErrorView;

    open spec fn view(&self) -> ManifestErrorView {
        match self {
            ManifestError::InvalidJson => ManifestErrorView::InvalidJson,
            ManifestError::MissingField { owner, field } => ManifestErrorView::MissingField {
                owner: owner@,
                field: *field,
            },
            ManifestError::UnsupportedKind { name, kind } => ManifestErrorView::UnsupportedKind {
                name: name@,
                kind: kind@,
            },
            ManifestError::UnknownValueType { name } => ManifestErrorView::UnknownValueType {
                name: name@,
            },
            ManifestError::InvalidRank { name } => ManifestErrorView::InvalidRank { name: name@ },
            ManifestError::UnknownType { entry_point, name } => ManifestErrorView::UnknownType {
                entry_point: entry_point@,
                name: name@,
            },
        }
    }
}

impl Field {
    /// The key under which a manifest holds this field.
    pub open spec fn spec_key(self) -> Seq<char> {
        match self {
            Field::Types => "types"@,
            Field::EntryPoints => "entry_points"@,
            Field::Kind => "kind"@,
            Field::ElemType => "elemtype"@,
            Field::Rank => "rank"@,
            Field::Inputs => "inputs"@,
            Field::Outputs => "outputs"@,
            Field::Type => "type"@,
        }
    }

    /// The key under which a manifest holds this field.
    pub fn key(&self) -> (key: &'static str)
        ensures
            key@ == self.spec_key(),
    {
        match self {
            Field::Types => "types",
            Field::EntryPoints => "entry_points",
            Field::Kind => "kind",
            Field::ElemType => "elemtype",
            Field::Rank => "rank",
            Field::Inputs => "inputs",
            Field::Outputs => "outputs",
            Field::Type => "type",
        }
    }
}

impl ManifestErrorView {
    /// The sentence that reports this error.
    pub open spec fn message(self) -> Seq<char> {
        match self {
            ManifestErrorView::InvalidJson => "Failed to parse manifest JSON."@,
            ManifestErrorView::MissingField { owner, field } => "Field "@ + field.spec_key()
                + " of '"@ + owner + "' is missing or malformed."@,
            ManifestErrorView::UnsupportedKind { name, kind } => "Types of kind "@ + kind
                + " are not supported."@,
            ManifestErrorView::UnknownValueType { name } => "Unknown value type "@ + name + "."@,
            ManifestErrorView::InvalidRank { name } => "Rank of type "@ + name
                + " is not a valid rank."@,
            ManifestErrorView::UnknownType { entry_point, name } => "Entry point "@ + entry_point
                + " refers to unknown type "@ + name + "."@,
        }
    }
}

impl ManifestError {
    /// The sentence that reports this error.
    pub fn message(&self) -> (text: String)
        ensures
            text@ == self@.message(),
    {
        match self {
            ManifestError::InvalidJson => "Failed to parse manifest JSON.".to_owned(),
            ManifestError::MissingField { owner, field } => {
                let mut text = "Field ".to_owned();
                text.append(field.key());
                text.append(" of '");
                text.append(owner.as_str());
                text.append("' is missing or malformed.");
                text
            },
            ManifestError::UnsupportedKind { name, kind } => {
                let mut text = "Types of kind ".to_owned();
                text.append(kind.as_str());
                text.append(" are not supported.");
                text
            },
            ManifestError::UnknownValueType { name } => {
                let mut text = "Unknown value type ".to_owned();
                text.append(name.as_str());
                text.append(".");
                text
            },
            ManifestError::InvalidRank { name } => {
                let mut text = "Rank of type ".to_owned();
                text.append(name.as_str());
                text.append(" is not a valid rank.");
                text
            },
            ManifestError::UnknownType { entry_point, name } => {
                let mut text = "Entry point ".to_owned();
                text.append(entry_point.as_str());
                text.append(" refers to unknown type ");
                text.append(name.as_str());
                text.append(".");
                text
            },
        }
    }
}

} // verus!
