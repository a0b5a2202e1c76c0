//! What holds of every manifest that was read.

use vstd::prelude::*;

use crate::json::{Json, Member};
use crate::manifest::entry_point::EntryPointView;
use crate::manifest::error::{Field, ManifestErrorView};
use crate::manifest::loader::{
    builtin_names, declare, lemma_position, lookup, position, spec_entry_point,
    spec_entry_points, spec_manifest, spec_param_list, spec_params, spec_table, spec_type,
    spec_types, text_field, types_of, Names,
};
use crate::manifest::value_type::{lemma_names_differ, ValueType};
use crate::manifest::{ManifestView, Type};

verus! {

/// Whether no name stands twice in `names`.
pub open spec fn unique(names: Names) -> bool {
    forall|i: int, j: int|
        0 <= i < names.len() && 0 <= j < names.len() && i != j ==> (#[trigger] names[i]).0 != (
        #[trigger] names[j]).0
}

/// Where no name stands twice, the place of a name is the one place where
/// it stands.
pub proof fn lemma_position_of(names: Names, i: int)
    requires
        unique(names),
        0 <= i < names.len(),
    ensures
        position(names, names[i].0) == i,
        lookup(names, names[i].0) == Some(names[i].1),
{
    lemma_position(names, names[i].0);
    let at = position(names, names[i].0);
    if at != i {
        assert(names[at].0 == names[i].0);
    }
}

/// The scalar types go by eleven different names, and each name resolves
/// to its type.
pub proof fn lemma_builtin_names()
    ensures
        unique(builtin_names()),
        forall|v: ValueType| lookup(builtin_names(), v.spec_futhark_name()) == Some(Type::Value(v)),
{
    lemma_names_differ();
    let names = builtin_names();
    assert forall|i: int, j: int|
        0 <= i < names.len() && 0 <= j < names.len() && i != j implies (#[trigger] names[i]).0 != (
    #[trigger] names[j]).0 by {
        let a = ValueType::spec_variants()[i];
        let b = ValueType::spec_variants()[j];
        assert(a.index() == i);
        assert(b.index() == j);
    }
    assert forall|v: ValueType| lookup(names, v.spec_futhark_name()) == Some(Type::Value(v)) by {
        assert(ValueType::spec_variants()[v.index()] == v);
        assert(names[v.index()] == (v.spec_futhark_name(), Type::Value(v)));
        lemma_position_of(names, v.index());
    }
}

/// To declare a name is to bind it as in a map: afterwards the name
/// resolves to the type that it was declared with, every other name
/// resolves as before, and still no name stands twice.
pub proof fn lemma_declare(names: Names, name: Seq<char>, type_: Type, other: Seq<char>)
    requires
        unique(names),
    ensures
        unique(declare(names, name, type_)),
        lookup(declare(names, name, type_), name) == Some(type_),
        other != name ==> lookup(declare(names, name, type_), other) == lookup(names, other),
{
    let after = declare(names, name, type_);
    let at = position(names, name);
    lemma_position(names, name);
    assert forall|i: int, j: int|
        0 <= i < after.len() && 0 <= j < after.len() && i != j implies (#[trigger] after[i]).0 != (
    #[trigger] after[j]).0 by {
        if at < names.len() {
            assert(after[i].0 == names[i].0 && after[j].0 == names[j].0);
        } else {
            if i < names.len() && j < names.len() {
                assert(after[i] == names[i] && after[j] == names[j]);
            } else if i < names.len() {
                assert(after[i] == names[i]);
            } else {
                assert(after[j] == names[j]);
            }
        }
    }
    assert(after[at] == (name, type_));
    lemma_position_of(after, at);
    if other != name {
        lemma_position(names, other);
        lemma_position(after, other);
        let p = position(names, other);
        let q = position(after, other);
        if p < names.len() {
            assert(after[p].0 == other);
            assert(after[p].1 == names[p].1);
            if q != p {
                if q < p {
                    assert(after[q].0 == other);
                    assert(names[q].0 == other);
                }
            }
        } else {
            if q < after.len() {
                assert(after[q].0 == other);
                if q < names.len() {
                    assert(names[q].0 == after[q].0);
                }
            }
        }
    }
}

/// Whatever a type table declares, no name stands twice among the names it
/// leaves, every name of the table resolves, and every scalar name that
/// the table does not declare anew still resolves to its scalar type.
pub proof fn lemma_types_are_bound(members: Seq<Member>, names: Names)
    requires
        unique(names),
    ensures
        spec_types(members, names) matches Ok(bound) ==> {
            &&& unique(bound)
            &&& forall|i: int|
                0 <= i < members.len() ==> lookup(bound, (#[trigger] members[i]).key@) is Some
            &&& forall|name: Seq<char>|
                (forall|i: int| 0 <= i < members.len() ==> (#[trigger] members[i]).key@ != name)
                    ==> #[trigger] lookup(bound, name) == lookup(names, name)
        },
    decreases members.len(),
{
    if members.len() > 0 {
        match spec_type(members[0].key@, members[0].value) {
            Ok(type_) => {
                let rest = members.skip(1);
                let next = declare(names, members[0].key@, type_);
                lemma_declare(names, members[0].key@, type_, members[0].key@);
                lemma_types_are_bound(rest, next);
                match spec_types(members, names) {
                    Ok(bound) => {
                        assert forall|i: int| 0 <= i < members.len() implies lookup(
                            bound,
                            (#[trigger] members[i]).key@,
                        ) is Some by {
                            if i > 0 {
                                assert(members[i] == rest[i - 1]);
                            } else {
                                if forall|k: int|
                                    0 <= k < rest.len() ==> (#[trigger] rest[k]).key@
                                        != members[0].key@ {
                                    assert(lookup(bound, members[0].key@) == lookup(
                                        next,
                                        members[0].key@,
                                    ));
                                } else {
                                    let k = choose|k: int|
                                        0 <= k < rest.len() && (#[trigger] rest[k]).key@
                                            == members[0].key@;
                                    assert(lookup(bound, rest[k].key@) is Some);
                                }
                            }
                        }
                        assert forall|name: Seq<char>|
                            (forall|i: int|
                                0 <= i < members.len() ==> (#[trigger] members[i]).key@
                                    != name) implies #[trigger] lookup(bound, name) == lookup(
                            names,
                            name,
                        ) by {
                            assert(members[0].key@ != name);
                            lemma_declare(names, members[0].key@, type_, name);
                            assert forall|i: int| 0 <= i < rest.len() implies (#[trigger] rest[i]).key@
                                != name by {
                                assert(rest[i] == members[i + 1]);
                            }
                        }
                    },
                    Err(_) => {},
                }
            },
            Err(_) => {},
        }
    }
}

/// Whether the parameter `item` of an entry point names the type `type_`.
pub open spec fn resolves_to(item: Json, names: Names, type_: Type) -> bool {
    match text_field(item, Field::Type) {
        Some(name) => lookup(names, name) == Some(type_),
        None => false,
    }
}

/// A parameter list that was read has one type for each parameter, in the
/// order of the document, and each is the type that the parameter names.
/// So a list with a parameter that names no declared type is not read.
pub proof fn lemma_params_in_order(
    entry: Seq<char>,
    items: Seq<Json>,
    names: Names,
    found: Seq<Type>,
)
    ensures
        spec_params(entry, items, names, found) matches Ok(types) ==> {
            &&& types.len() == found.len() + items.len()
            &&& forall|i: int| 0 <= i < found.len() ==> types[i] == found[i]
            &&& forall|i: int|
                0 <= i < items.len() ==> resolves_to(
                    #[trigger] items[i],
                    names,
                    types[found.len() + i],
                )
        },
    decreases items.len(),
{
    if items.len() > 0 {
        match text_field(items[0], Field::Type) {
            Some(name) => match lookup(names, name) {
                Some(type_) => {
                    let rest = items.skip(1);
                    lemma_params_in_order(entry, rest, names, found.push(type_));
                    match spec_params(entry, items, names, found) {
                        Ok(types) => {
                            assert(types[found.len() as int] == found.push(type_)[found.len() as int]);
                            assert forall|i: int| 0 <= i < found.len() implies types[i]
                                == found[i] by {
                                assert(found.push(type_)[i] == found[i]);
                            }
                            assert forall|i: int| 0 <= i < items.len() implies resolves_to(
                                #[trigger] items[i],
                                names,
                                types[found.len() + i],
                            ) by {
                                if i > 0 {
                                    assert(items[i] == rest[i - 1]);
                                }
                            }
                        },
                        Err(_) => {},
                    }
                },
                None => {},
            },
            None => {},
        }
    }
}

/// The entry points that were read are as many as the document has, stand
/// in its order, and each is what its entry describes.
pub proof fn lemma_entry_points_in_order(
    members: Seq<Member>,
    names: Names,
    found: Seq<EntryPointView>,
)
    ensures
        spec_entry_points(members, names, found) matches Ok(entries) ==> {
            &&& entries.len() == found.len() + members.len()
            &&& forall|i: int| 0 <= i < found.len() ==> entries[i] == found[i]
            &&& forall|i: int|
                0 <= i < members.len() ==> spec_entry_point(
                    (#[trigger] members[i]).key@,
                    members[i].value,
                    names,
                ) == Ok::<_, ManifestErrorView>(entries[found.len() + i])
        },
    decreases members.len(),
{
    if members.len() > 0 {
        match spec_entry_point(members[0].key@, members[0].value, names) {
            Ok(entry) => {
                let rest = members.skip(1);
                lemma_entry_points_in_order(rest, names, found.push(entry));
                match spec_entry_points(members, names, found) {
                    Ok(entries) => {
                        assert(entries[found.len() as int] == found.push(entry)[found.len() as int]);
                        assert forall|i: int| 0 <= i < found.len() implies entries[i]
                            == found[i] by {
                            assert(found.push(entry)[i] == found[i]);
                        }
                        assert forall|i: int| 0 <= i < members.len() implies spec_entry_point(
                            (#[trigger] members[i]).key@,
                            members[i].value,
                            names,
                        ) == Ok::<_, ManifestErrorView>(entries[found.len() + i]) by {
                            if i > 0 {
                                assert(members[i] == rest[i - 1]);
                            }
                        }
                    },
                    Err(_) => {},
                }
            },
            Err(_) => {},
        }
    }
}

/// A type table is read only if each of its entries declares a type: one
/// entry of a kind that is not supported, or without one, and the table is
/// turned down.
pub proof fn lemma_types_all_declared(members: Seq<Member>, names: Names)
    ensures
        spec_types(members, names) is Ok ==> forall|i: int|
            0 <= i < members.len() ==> spec_type((#[trigger] members[i]).key@, members[i].value)
                is Ok,
    decreases members.len(),
{
    if members.len() > 0 {
        match spec_type(members[0].key@, members[0].value) {
            Ok(type_) => {
                let rest = members.skip(1);
                let next = crate::manifest::loader::declare(names, members[0].key@, type_);
                lemma_types_all_declared(rest, next);
                if spec_types(members, names) is Ok {
                    assert forall|i: int| 0 <= i < members.len() implies spec_type(
                        (#[trigger] members[i]).key@,
                        members[i].value,
                    ) is Ok by {
                        if i > 0 {
                            assert(members[i] == rest[i - 1]);
                        }
                    }
                }
            },
            Err(_) => {},
        }
    }
}

/// An entry of the type table whose kind is not `array` is never declared:
/// it is turned down with its name and its kind.
pub proof fn lemma_unsupported_kind(name: Seq<char>, obj: Json, kind: Seq<char>)
    requires
        text_field(obj, Field::Kind) == Some(kind),
        kind != "array"@,
    ensures
        spec_type(name, obj) == Err::<Type, _>(ManifestErrorView::UnsupportedKind { name, kind }),
{
}

/// Of a manifest that was read: its entry points are those of the
/// document, as many and in the same order, each under its name; and every
/// type that an entry point takes or returns is among the types of the
/// manifest.
pub proof fn lemma_manifest_is_closed(doc: Json, manifest: ManifestView)
    requires
        spec_manifest(doc) == Ok::<_, ManifestErrorView>(manifest),
    ensures
        spec_table(doc, Field::EntryPoints) matches Ok(table) && {
            &&& manifest.entry_points.len() == table.len()
            &&& forall|i: int|
                0 <= i < table.len() ==> (#[trigger] manifest.entry_points[i]).name
                    == table[i].key@
        },
        manifest.closed(),
{
    let type_table = spec_table(doc, Field::Types)->Ok_0;
    let names = spec_types(type_table, builtin_names())->Ok_0;
    let table = spec_table(doc, Field::EntryPoints)->Ok_0;
    lemma_entry_points_in_order(table, names, Seq::empty());
    assert forall|i: int| 0 <= i < table.len() implies (#[trigger] manifest.entry_points[i]).name
        == table[i].key@ by {
        assert(spec_entry_point(table[i].key@, table[i].value, names) == Ok::<
            _,
            ManifestErrorView,
        >(manifest.entry_points[0 + i]));
    }
    assert forall|i: int, j: int|
        0 <= i < manifest.entry_points.len() && 0 <= j
            < manifest.entry_points[i].inputs.len() implies manifest.types.contains(
        #[trigger] manifest.entry_points[i].inputs[j],
    ) by {
        assert(spec_entry_point(table[i].key@, table[i].value, names) == Ok::<
            _,
            ManifestErrorView,
        >(manifest.entry_points[0 + i]));
        lemma_listed_type(
            table[i].key@,
            table[i].value,
            Field::Inputs,
            names,
            manifest.entry_points[i].inputs,
            j,
        );
    }
    assert forall|i: int, j: int|
        0 <= i < manifest.entry_points.len() && 0 <= j
            < manifest.entry_points[i].outputs.len() implies manifest.types.contains(
        #[trigger] manifest.entry_points[i].outputs[j],
    ) by {
        assert(spec_entry_point(table[i].key@, table[i].value, names) == Ok::<
            _,
            ManifestErrorView,
        >(manifest.entry_points[0 + i]));
        lemma_listed_type(
            table[i].key@,
            table[i].value,
            Field::Outputs,
            names,
            manifest.entry_points[i].outputs,
            j,
        );
    }
}

proof fn lemma_listed_type(
    entry: Seq<char>,
    obj: Json,
    field: Field,
    names: Names,
    types: Seq<Type>,
    j: int,
)
    requires
        spec_param_list(entry, obj, field, names) == Ok::<_, ManifestErrorView>(types),
        0 <= j < types.len(),
    ensures
        types_of(names).contains(types[j]),
{
    let items = obj.spec_get(field.spec_key())->Some_0.spec_items()->Some_0;
    lemma_params_in_order(entry, items, names, Seq::empty());
    assert(resolves_to(items[j], names, types[0 + j]));
    let name = text_field(items[j], Field::Type)->Some_0;
    lemma_position(names, name);
    let at = position(names, name);
    assert(types_of(names)[at] == types[j]);
}

/// A parameter list in which a parameter names a type that was not
/// declared is turned down.
pub proof fn lemma_dangling_type_is_rejected(
    entry: Seq<char>,
    items: Seq<Json>,
    names: Names,
    j: int,
)
    requires
        0 <= j < items.len(),
        text_field(items[j], Field::Type) matches Some(name) && lookup(names, name) is None,
    ensures
        spec_params(entry, items, names, Seq::empty()) is Err,
{
    lemma_params_in_order(entry, items, names, Seq::empty());
    if spec_params(entry, items, names, Seq::empty()) is Ok {
        let types = spec_params(entry, items, names, Seq::empty())->Ok_0;
        assert(resolves_to(items[j], names, types[0 + j]));
    }
}

/// A document in which the entry point number `i` has, among its inputs or
/// among its outputs, a parameter that names a type that was not declared
/// gives no manifest at all.
pub proof fn lemma_dangling_reference_fails(
    doc: Json,
    field: Field,
    i: int,
    j: int,
    names: Names,
    table: Seq<Member>,
    items: Seq<Json>,
    name: Seq<char>,
)
    requires
        field == Field::Inputs || field == Field::Outputs,
        spec_table(doc, Field::Types) is Ok,
        spec_types(spec_table(doc, Field::Types)->Ok_0, builtin_names()) == Ok::<
            _,
            ManifestErrorView,
        >(names),
        spec_table(doc, Field::EntryPoints) == Ok::<_, ManifestErrorView>(table),
        0 <= i < table.len(),
        table[i].value.spec_get(field.spec_key()) is Some,
        table[i].value.spec_get(field.spec_key())->Some_0.spec_items() == Some(items),
        0 <= j < items.len(),
        text_field(items[j], Field::Type) == Some(name),
        lookup(names, name) is None,
    ensures
        spec_manifest(doc) is Err,
{
    lemma_dangling_type_is_rejected(table[i].key@, items, names, j);
    lemma_entry_points_in_order(table, names, Seq::empty());
    assert(spec_param_list(table[i].key@, table[i].value, field, names) is Err);
    assert(spec_entry_point(table[i].key@, table[i].value, names) is Err);
}

/// A document whose type table has an entry of a kind other than `array`
/// gives no manifest at all.
pub proof fn lemma_unsupported_kind_fails(
    doc: Json,
    type_table: Seq<Member>,
    i: int,
    kind: Seq<char>,
)
    requires
        spec_table(doc, Field::Types) == Ok::<_, ManifestErrorView>(type_table),
        0 <= i < type_table.len(),
        text_field(type_table[i].value, Field::Kind) == Some(kind),
        kind != "array"@,
    ensures
        spec_manifest(doc) is Err,
{
    lemma_types_all_declared(type_table, builtin_names());
    assert(spec_type(type_table[i].key@, type_table[i].value) is Err);
}

} // verus!
