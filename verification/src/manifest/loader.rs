use vstd::prelude::*;

use crate::json::{json_document, parse, Json, Member};
use crate::manifest::array_type::ArrayType;
use crate::manifest::entry_point::{EntryPoint, EntryPointView};
use crate::manifest::error::{Field, ManifestError, ManifestErrorView};
use crate::manifest::value_type::ValueType;
use crate::manifest::{Argument, Manifest, ManifestView, Type};
use crate::text::same_text;

verus! {

/// The names that types go by while a manifest is read, each with its type.
/// A name occurs once; the scalar types are there from the start.
pub type Names = Seq<(Seq<char>, Type)>;

/// The names and types that `types` holds.
pub open spec fn names_of(types: Seq<Argument>) -> Names {
    Seq::new(types.len(), |i: int| (types[i].name@, types[i].type_))
}

/// The scalar types under their manifest names.
pub open spec fn builtin_names() -> Names {
    Seq::new(
        11,
        |i: int|
            (
                ValueType::spec_variants()[i].spec_futhark_name(),
                Type::Value(ValueType::spec_variants()[i]),
            ),
    )
}

/// The first position of `name` in `names`; their length where it is not
/// there.
pub open spec fn position(names: Names, name: Seq<char>) -> int
    decreases names.len(),
{
    if names.len() == 0 {
        0
    } else if names[0].0 == name {
        0
    } else {
        1 + position(names.skip(1), name)
    }
}

/// The type that goes by `name`.
pub open spec fn lookup(names: Names, name: Seq<char>) -> Option<Type> {
    let i = position(names, name);
    if i < names.len() {
        Some(names[i].1)
    } else {
        None
    }
}

/// `names` after `name` was declared as `type_`: a name that was there keeps
/// its place and changes its type, a new one goes to the end.
pub open spec fn declare(names: Names, name: Seq<char>, type_: Type) -> Names {
    let i = position(names, name);
    if i < names.len() {
        names.update(i, (name, type_))
    } else {
        names.push((name, type_))
    }
}

/// What [`position`] computes is the first place where the name stands.
pub proof fn lemma_position(names: Names, name: Seq<char>)
    ensures
        0 <= position(names, name) <= names.len(),
        position(names, name) < names.len() ==> names[position(names, name)].0 == name,
        forall|j: int| 0 <= j < position(names, name) ==> (#[trigger] names[j]).0 != name,
    decreases names.len(),
{
    if names.len() > 0 && names[0].0 != name {
        let rest = names.skip(1);
        lemma_position(rest, name);
        assert forall|j: int| 0 <= j < position(names, name) implies (#[trigger] names[j]).0
            != name by {
            if j > 0 {
                assert(names[j] == rest[j - 1]);
            }
        }
    }
}

/// What a JSON value holds as text under the key of `field`.
pub open spec fn text_field(obj: Json, field: Field) -> Option<Seq<char>> {
    match obj.spec_get(field.spec_key()) {
        Some(value) => value.spec_text(),
        None => None,
    }
}

/// The error for a field that `owner` lacks.
pub open spec fn missing(owner: Seq<char>, field: Field) -> ManifestErrorView {
    ManifestErrorView::MissingField { owner, field }
}

/// The array type that the entry `obj` of the type table declares under
/// `name`: its `elemtype` must name a scalar type, its `rank` must be an
/// integer from 0 to `usize::MAX`.
pub open spec fn spec_array(name: Seq<char>, obj: Json) -> Result<ArrayType, ManifestErrorView> {
    match text_field(obj, Field::ElemType) {
        None => Err(missing(name, Field::ElemType)),
        Some(elem) => match ValueType::spec_from_manifest(elem) {
            None => Err(ManifestErrorView::UnknownValueType { name: elem }),
            Some(elements) => match obj.spec_get(Field::Rank.spec_key()) {
                Some(Json::Number(Some(rank))) => if 0 <= rank <= usize::MAX {
                    Ok(ArrayType { elements, rank: rank as usize })
                } else {
                    Err(ManifestErrorView::InvalidRank { name })
                },
                Some(Json::Number(None)) => Err(ManifestErrorView::InvalidRank { name }),
                _ => Err(missing(name, Field::Rank)),
            },
        },
    }
}

/// The type that the entry `obj` of the type table declares under `name`.
/// Only the kind `array` is supported.
pub open spec fn spec_type(name: Seq<char>, obj: Json) -> Result<Type, ManifestErrorView> {
    match text_field(obj, Field::Kind) {
        None => Err(missing(name, Field::Kind)),
        Some(kind) => if kind == "array"@ {
            match spec_array(name, obj) {
                Ok(array) => Ok(Type::Array(array)),
                Err(e) => Err(e),
            }
        } else {
            Err(ManifestErrorView::UnsupportedKind { name, kind })
        },
    }
}

/// `names` after the entries `members` of the type table were declared, one
/// after the other. The first entry that is turned down decides the error.
pub open spec fn spec_types(members: Seq<Member>, names: Names) -> Result<Names, ManifestErrorView>
    decreases members.len(),
{
    if members.len() == 0 {
        Ok(names)
    } else {
        match spec_type(members[0].key@, members[0].value) {
            Err(e) => Err(e),
            Ok(type_) => spec_types(members.skip(1), declare(names, members[0].key@, type_)),
        }
    }
}

/// `found`, followed by the types that the parameters `items` of the entry
/// point `entry` name. Each item must hold the name of a declared type in
/// its field `type`.
pub open spec fn spec_params(entry: Seq<char>, items: Seq<Json>, names: Names, found: Seq<Type>)
    -> Result<Seq<Type>, ManifestErrorView>
    decreases items.len(),
{
    if items.len() == 0 {
        Ok(found)
    } else {
        match text_field(items[0], Field::Type) {
            None => Err(missing(entry, Field::Type)),
            Some(name) => match lookup(names, name) {
                None => Err(ManifestErrorView::UnknownType { entry_point: entry, name }),
                Some(type_) => spec_params(entry, items.skip(1), names, found.push(type_)),
            },
        }
    }
}

/// The parameter list that `obj` holds in its field `field`.
pub open spec fn spec_param_list(entry: Seq<char>, obj: Json, field: Field, names: Names)
    -> Result<Seq<Type>, ManifestErrorView> {
    match obj.spec_get(field.spec_key()) {
        Some(Json::Array(items)) => spec_params(entry, items@, names, Seq::empty()),
        _ => Err(missing(entry, field)),
    }
}

/// The entry point that `obj` describes under `name`. The inputs are read
/// before the outputs.
pub open spec fn spec_entry_point(name: Seq<char>, obj: Json, names: Names) -> Result<
    EntryPointView,
    ManifestErrorView,
> {
    match spec_param_list(name, obj, Field::Inputs, names) {
        Err(e) => Err(e),
        Ok(inputs) => match spec_param_list(name, obj, Field::Outputs, names) {
            Err(e) => Err(e),
            Ok(outputs) => Ok(EntryPointView { name, inputs, outputs }),
        },
    }
}

/// `found`, followed by the entry points that `members` describe, in their
/// order.
pub open spec fn spec_entry_points(
    members: Seq<Member>,
    names: Names,
    found: Seq<EntryPointView>,
) -> Result<Seq<EntryPointView>, ManifestErrorView>
    decreases members.len(),
{
    if members.len() == 0 {
        Ok(found)
    } else {
        match spec_entry_point(members[0].key@, members[0].value, names) {
            Err(e) => Err(e),
            Ok(entry) => spec_entry_points(members.skip(1), names, found.push(entry)),
        }
    }
}

/// The members of the object that `doc` holds in the top-level field
/// `field`.
pub open spec fn spec_table(doc: Json, field: Field) -> Result<Seq<Member>, ManifestErrorView> {
    match doc.spec_get(field.spec_key()) {
        Some(Json::Object(members)) => Ok(members@),
        _ => Err(missing(Seq::empty(), field)),
    }
}

/// The types that `names` holds, in their order.
pub open spec fn types_of(names: Names) -> Seq<Type> {
    Seq::new(names.len(), |i: int| names[i].1)
}

/// The manifest that the document `doc` describes. The type table is read
/// first and in full, then the entry points.
pub open spec fn spec_manifest(doc: Json) -> Result<ManifestView, ManifestErrorView> {
    match spec_table(doc, Field::Types) {
        Err(e) => Err(e),
        Ok(type_table) => match spec_types(type_table, builtin_names()) {
            Err(e) => Err(e),
            Ok(names) => match spec_table(doc, Field::EntryPoints) {
                Err(e) => Err(e),
                Ok(entry_table) => match spec_entry_points(entry_table, names, Seq::empty()) {
                    Err(e) => Err(e),
                    Ok(entry_points) => Ok(ManifestView { entry_points, types: types_of(names) }),
                },
            },
        },
    }
}

/// The manifest that the text `text` describes.
pub open spec fn spec_load(text: Seq<char>) -> Result<ManifestView, ManifestErrorView> {
    match json_document(text) {
        None => Err(ManifestErrorView::InvalidJson),
        Some(doc) => spec_manifest(doc),
    }
}

/// A result with its error taken by its view.
pub open spec fn plain<T>(r: Result<T, ManifestError>) -> Result<T, ManifestErrorView> {
    match r {
        Ok(value) => Ok(value),
        Err(e) => Err(e@),
    }
}

/// A result with its value and its error taken by their views.
pub open spec fn viewed<T: View>(r: Result<T, ManifestError>) -> Result<T::V, ManifestErrorView> {
    match r {
        Ok(value) => Ok(value@),
        Err(e) => Err(e@),
    }
}

fn missing_field(owner: &str, field: Field) -> (e: ManifestError)
    ensures
        e@ == missing(owner@, field),
{
    ManifestError::MissingField { owner: owner.to_owned(), field }
}

fn get_text<'a>(obj: &'a Json, field: Field) -> (text: Option<&'a str>)
    ensures
        match text {
            Some(t) => text_field(*obj, field) == Some(t@),
            None => text_field(*obj, field) is None,
        },
{
    match obj.get(field.key()) {
        Some(value) => value.as_str(),
        None => None,
    }
}

/// The scalar types under their manifest names.
fn builtin_types() -> (types: Vec<Argument>)
    ensures
        names_of(types@) == builtin_names(),
{
    let all = ValueType::variants();
    let mut types: Vec<Argument> = Vec::new();
    let mut i: usize = 0;
    while i < all.len()
        invariant
            i <= all.len(),
            all@ == ValueType::spec_variants(),
            types@.len() == i,
            forall|j: int|
                0 <= j < i ==> (#[trigger] types@[j]).name@ == all@[j].spec_futhark_name()
                    && types@[j].type_ == Type::Value(all@[j]),
        decreases all.len() - i,
    {
        types.push(Argument { name: all[i].futhark_name().to_owned(), type_: Type::Value(all[i]) });
        i = i + 1;
    }
    assert(names_of(types@) =~= builtin_names());
    types
}

fn find(types: &Vec<Argument>, name: &str) -> (i: usize)
    ensures
        i == position(names_of(types@), name@),
        i <= types.len(),
{
    let mut i: usize = 0;
    assert(names_of(types@).skip(0) =~= names_of(types@));
    while i < types.len()
        invariant
            i <= types.len(),
            position(names_of(types@), name@) == i + position(
                names_of(types@).skip(i as int),
                name@,
            ),
        decreases types.len() - i,
    {
        let ghost rest = names_of(types@).skip(i as int);
        assert(rest[0] == names_of(types@)[i as int]);
        assert(rest.skip(1) =~= names_of(types@).skip(i + 1));
        if same_text(types[i].name.as_str(), name) {
            return i;
        }
        i = i + 1;
    }
    i
}

fn declare_type(types: &mut Vec<Argument>, name: &str, type_: Type)
    ensures
        names_of(final(types)@) == declare(names_of(old(types)@), name@, type_),
{
    let i = find(types, name);
    let entry = Argument { name: name.to_owned(), type_ };
    if i < types.len() {
        types.set(i, entry);
    } else {
        types.push(entry);
    }
    assert(names_of(types@) =~= declare(names_of(old(types)@), name@, type_));
}

/// Reads the array type that the entry `obj` of the type table declares under
/// `name`.
pub fn load_array(name: &str, obj: &Json) -> (r: Result<ArrayType, ManifestError>)
    ensures
        plain(r) == spec_array(name@, *obj),
{
    let elem = match get_text(obj, Field::ElemType) {
        Some(elem) => elem,
        None => {
            return Err(missing_field(name, Field::ElemType));
        },
    };
    let elements = match ValueType::from_manifest(elem) {
        Ok(elements) => elements,
        Err(e) => {
            return Err(e);
        },
    };
    match obj.get(Field::Rank.key()) {
        Some(Json::Number(Some(rank))) => {
            if *rank >= 0 && *rank as u64 <= usize::MAX as u64 {
                Ok(ArrayType { elements, rank: *rank as usize })
            } else {
                Err(ManifestError::InvalidRank { name: name.to_owned() })
            }
        },
        Some(Json::Number(None)) => Err(ManifestError::InvalidRank { name: name.to_owned() }),
        _ => Err(missing_field(name, Field::Rank)),
    }
}

/// Reads the type that the entry `obj` of the type table declares under
/// `name`.
pub fn load_type(name: &str, obj: &Json) -> (r: Result<Type, ManifestError>)
    ensures
        plain(r) == spec_type(name@, *obj),
{
    match get_text(obj, Field::Kind) {
        None => Err(missing_field(name, Field::Kind)),
        Some(kind) => {
            if same_text(kind, "array") {
                match load_array(name, obj) {
                    Ok(array) => Ok(Type::Array(array)),
                    Err(e) => Err(e),
                }
            } else {
                Err(ManifestError::UnsupportedKind { name: name.to_owned(), kind: kind.to_owned() })
            }
        },
    }
}

fn load_params(entry: &str, obj: &Json, field: Field, types: &Vec<Argument>) -> (r: Result<
    Vec<Type>,
    ManifestError,
>)
    ensures
        viewed(r) == spec_param_list(entry@, *obj, field, names_of(types@)),
{
    let items = match obj.get(field.key()) {
        Some(Json::Array(items)) => items,
        _ => {
            return Err(missing_field(entry, field));
        },
    };
    let ghost names = names_of(types@);
    let ghost goal = spec_params(entry@, items@, names, Seq::empty());
    let mut found: Vec<Type> = Vec::new();
    let mut i: usize = 0;
    assert(items@.skip(0) =~= items@);
    while i < items.len()
        invariant
            i <= items.len(),
            names == names_of(types@),
            spec_param_list(entry@, *obj, field, names) == goal,
            goal == spec_params(entry@, items@.skip(i as int), names, found@),
        decreases items.len() - i,
    {
        let ghost rest = items@.skip(i as int);
        assert(rest[0] == items@[i as int]);
        assert(rest.skip(1) =~= items@.skip(i + 1));
        let name = match get_text(&items[i], Field::Type) {
            Some(name) => name,
            None => {
                return Err(missing_field(entry, Field::Type));
            },
        };
        let at = find(types, name);
        if at >= types.len() {
            return Err(
                ManifestError::UnknownType { entry_point: entry.to_owned(), name: name.to_owned() },
            );
        }
        found.push(types[at].type_);
        i = i + 1;
    }
    Ok(found)
}

/// Reads the entry point that `obj` describes under `name`, resolving the
/// types of its parameters in `types`.
pub fn load_entry_point(name: &str, obj: &Json, types: &Vec<Argument>) -> (r: Result<
    EntryPoint,
    ManifestError,
>)
    ensures
        viewed(r) == spec_entry_point(name@, *obj, names_of(types@)),
{
    let inputs = match load_params(name, obj, Field::Inputs, types) {
        Ok(inputs) => inputs,
        Err(e) => {
            return Err(e);
        },
    };
    let outputs = match load_params(name, obj, Field::Outputs, types) {
        Ok(outputs) => outputs,
        Err(e) => {
            return Err(e);
        },
    };
    Ok(EntryPoint { name: name.to_owned(), inputs, outputs })
}

fn table<'a>(doc: &'a Json, field: Field) -> (r: Result<&'a Vec<Member>, ManifestError>)
    ensures
        match r {
            Ok(members) => spec_table(*doc, field) == Ok::<_, ManifestErrorView>(members@),
            Err(e) => spec_table(*doc, field) == Err::<Seq<Member>, _>(e@),
        },
{
    proof {
        reveal_strlit("");
        assert(""@ =~= Seq::<char>::empty());
    }
    match doc.get(field.key()) {
        Some(Json::Object(members)) => Ok(members),
        _ => Err(missing_field("", field)),
    }
}

/// Builds the manifest that the document `doc` describes: every entry of
/// its type table beside the scalar types, every entry point in the order of
/// the document. Fails with the first fault met, and then builds nothing.
pub fn from_document(doc: &Json) -> (r: Result<Manifest, ManifestError>)
    ensures
        viewed(r) == spec_manifest(*doc),
        r matches Ok(manifest) ==> manifest@.closed(),
{
    let type_table = match table(doc, Field::Types) {
        Ok(members) => members,
        Err(e) => {
            return Err(e);
        },
    };
    let mut types = builtin_types();
    let mut i: usize = 0;
    assert(type_table@.skip(0) =~= type_table@);
    while i < type_table.len()
        invariant
            i <= type_table.len(),
            spec_table(*doc, Field::Types) == Ok::<_, ManifestErrorView>(type_table@),
            spec_types(type_table@, builtin_names()) == spec_types(
                type_table@.skip(i as int),
                names_of(types@),
            ),
        decreases type_table.len() - i,
    {
        let ghost rest = type_table@.skip(i as int);
        assert(rest[0] == type_table@[i as int]);
        assert(rest.skip(1) =~= type_table@.skip(i + 1));
        let name = type_table[i].key.as_str();
        match load_type(name, &type_table[i].value) {
            Ok(type_) => {
                declare_type(&mut types, name, type_);
            },
            Err(e) => {
                return Err(e);
            },
        }
        i = i + 1;
    }
    let entry_table = match table(doc, Field::EntryPoints) {
        Ok(members) => members,
        Err(e) => {
            return Err(e);
        },
    };
    let ghost names = names_of(types@);
    let ghost goal = spec_entry_points(entry_table@, names, Seq::empty());
    let mut entry_points: Vec<EntryPoint> = Vec::new();
    let mut k: usize = 0;
    assert(entry_table@.skip(0) =~= entry_table@);
    assert(Seq::new(0, |j: int| entry_points@[j]@) =~= Seq::<EntryPointView>::empty());
    while k < entry_table.len()
        invariant
            k <= entry_table.len(),
            names == names_of(types@),
            spec_table(*doc, Field::Types) == Ok::<_, ManifestErrorView>(type_table@),
            spec_types(type_table@, builtin_names()) == Ok::<_, ManifestErrorView>(names),
            spec_table(*doc, Field::EntryPoints) == Ok::<_, ManifestErrorView>(entry_table@),
            goal == spec_entry_points(entry_table@, names, Seq::empty()),
            goal == spec_entry_points(
                entry_table@.skip(k as int),
                names,
                Seq::new(entry_points@.len(), |j: int| entry_points@[j]@),
            ),
        decreases entry_table.len() - k,
    {
        let ghost rest = entry_table@.skip(k as int);
        let ghost before = Seq::new(entry_points@.len(), |j: int| entry_points@[j]@);
        assert(rest[0] == entry_table@[k as int]);
        assert(rest.skip(1) =~= entry_table@.skip(k + 1));
        match load_entry_point(entry_table[k].key.as_str(), &entry_table[k].value, &types) {
            Ok(entry) => {
                entry_points.push(entry);
                assert(Seq::new(entry_points@.len(), |j: int| entry_points@[j]@) =~= before.push(
                    entry@,
                ));
            },
            Err(e) => {
                return Err(e);
            },
        }
        k = k + 1;
    }
    let mut listed: Vec<Type> = Vec::new();
    let mut t: usize = 0;
    while t < types.len()
        invariant
            t <= types.len(),
            listed@.len() == t,
            forall|j: int| 0 <= j < t ==> listed@[j] == (#[trigger] types@[j]).type_,
        decreases types.len() - t,
    {
        listed.push(types[t].type_);
        t = t + 1;
    }
    assert(listed@ =~= types_of(names));
    let manifest = Manifest { entry_points, types: listed };
    proof {
        crate::manifest::laws::lemma_manifest_is_closed(*doc, manifest@);
    }
    Ok(manifest)
}

/// Reads a manifest from the JSON text that the Futhark compiler wrote.
/// Fails with [`ManifestError::InvalidJson`] exactly where the text is not
/// JSON, and otherwise as [`from_document`] does.
pub fn load(text: &str) -> (r: Result<Manifest, ManifestError>)
    ensures
        viewed(r) == spec_load(text@),
        r matches Ok(manifest) ==> manifest@.closed(),
{
    match parse(text) {
        None => Err(ManifestError::InvalidJson),
        Some(doc) => from_document(&doc),
    }
}

} // verus!
