//! The JSON value that the text of a type denotes.
//!
//! The renderer writes blanks in some places and none in others. With the
//! blanks outside of strings taken out, the text of a regular type is the
//! compact text of a JSON value that is given here by the shape of the
//! type.

use vstd::prelude::*;
use crate::json::{
    array_is_compact, compact, compact_items, compact_member, compact_members,
    joined_is_compact, keyed_is_compact, member_is_compact, object_is_compact, plain,
    quoted_after, quoted_text_is_kept, single, squeezed, squeezes_to, Json,
};
use crate::render::{
    joined_entries, joined_field_types, joined_modes, joined_types, primitive_name,
    rendered_actor, rendered_array, rendered_document, rendered_entry, rendered_field,
    rendered_fields, rendered_modes, rendered_type, tuple_fields,
};
use crate::types::{decimal, grouped_decimal, Field, FuncMode, Type};

verus! {

/// Whether a type has a JSON value: it is built without a class, a knot or
/// one of the three types without content, and every name and label in it
/// can stand between double quotes as it is.
pub open spec fn regular(ty: Type) -> bool
    decreases ty, 0nat,
{
    match ty {
        Type::Opt(inner) => regular(*inner),
        Type::Vec(inner) => regular(*inner),
        Type::Var(name) => plain(name@),
        Type::Record(fields) => regular_fields(fields@),
        Type::Variant(fields) => regular_fields(fields@),
        Type::Service(methods) => regular_entries(methods@),
        Type::Func(f) => regular_types(f.args@) && regular_types(f.rets@),
        Type::Knot(_) | Type::Empty | Type::Reserved | Type::Unknown | Type::Class(_, _) => false,
        _ => true,
    }
}

/// Whether each of the types is regular.
pub open spec fn regular_types(types: Seq<Type>) -> bool
    decreases types, 1nat,
{
    if types.len() == 0 {
        true
    } else {
        regular_types(types.drop_last()) && regular(types.last())
    }
}

/// Whether each of the fields has a plain label and a regular type.
pub open spec fn regular_fields(fields: Seq<Field>) -> bool
    decreases fields, 1nat,
{
    if fields.len() == 0 {
        true
    } else {
        regular_fields(fields.drop_last()) && plain(fields.last().id.text()) && regular(
            fields.last().ty,
        )
    }
}

/// Whether each of the entries has a plain name and a regular type.
pub open spec fn regular_entries(entries: Seq<(String, Type)>) -> bool
    decreases entries, 1nat,
{
    if entries.len() == 0 {
        true
    } else {
        regular_entries(entries.drop_last()) && plain(entries.last().0@) && regular(
            entries.last().1,
        )
    }
}

/// The JSON value of a regular type: a string for a primitive, `null` for
/// the null type, and for every other type an object with a single member
/// whose key names the variant of the type.
pub open spec fn json_of(ty: Type) -> Json
    decreases ty, 0nat,
{
    match ty {
        Type::Opt(inner) => single("Opt"@, json_of(*inner)),
        Type::Vec(inner) => single("Vec"@, json_of(*inner)),
        Type::Var(name) => single("Var"@, Json::Text(name@)),
        Type::Record(fields) => if tuple_fields(fields@) {
            single("Tuple"@, Json::Array(json_of_field_types(fields@)))
        } else {
            single("Record"@, Json::Object(json_of_fields(fields@)))
        },
        Type::Variant(fields) => single("Variant"@, Json::Object(json_of_fields(fields@))),
        Type::Service(methods) => single("Service"@, Json::Object(json_of_entries(methods@))),
        Type::Func(f) => single(
            "Func"@,
            Json::Object(
                seq![
                    ("args"@, Json::Array(json_of_types(f.args@))),
                    ("rets"@, Json::Array(json_of_types(f.rets@))),
                    ("modes"@, Json::Array(json_of_modes(f.modes@))),
                ],
            ),
        ),
        Type::Null
        | Type::Knot(_)
        | Type::Empty
        | Type::Reserved
        | Type::Unknown
        | Type::Class(_, _) => Json::Null,
        _ => Json::Text(primitive_name(ty)),
    }
}

/// The JSON values of the types, in order.
pub open spec fn json_of_types(types: Seq<Type>) -> Seq<Json>
    decreases types, 1nat,
{
    if types.len() == 0 {
        Seq::empty()
    } else {
        json_of_types(types.drop_last()).push(json_of(types.last()))
    }
}

/// The JSON values of the fields' types, in order.
pub open spec fn json_of_field_types(fields: Seq<Field>) -> Seq<Json>
    decreases fields, 1nat,
{
    if fields.len() == 0 {
        Seq::empty()
    } else {
        json_of_field_types(fields.drop_last()).push(json_of(fields.last().ty))
    }
}

/// The fields as members, in order: the text of the label, the JSON value
/// of the type.
pub open spec fn json_of_fields(fields: Seq<Field>) -> Seq<(Seq<char>, Json)>
    decreases fields, 1nat,
{
    if fields.len() == 0 {
        Seq::empty()
    } else {
        json_of_fields(fields.drop_last()).push(
            (fields.last().id.text(), json_of(fields.last().ty)),
        )
    }
}

/// The entries as members, in order: the name, the JSON value of the type.
pub open spec fn json_of_entries(entries: Seq<(String, Type)>) -> Seq<(Seq<char>, Json)>
    decreases entries, 1nat,
{
    if entries.len() == 0 {
        Seq::empty()
    } else {
        json_of_entries(entries.drop_last()).push((entries.last().0@, json_of(entries.last().1)))
    }
}

/// The tags of the modes as strings, in order.
pub open spec fn json_of_modes(modes: Seq<FuncMode>) -> Seq<Json>
    decreases modes.len(),
{
    if modes.len() == 0 {
        Seq::empty()
    } else {
        json_of_modes(modes.drop_last()).push(Json::Text(modes.last().tag()))
    }
}

/// Whether an actor has a JSON value: there is none, or it is a regular
/// service, or a class of regular arguments and a regular body.
pub open spec fn regular_actor(actor: Option<Type>) -> bool {
    match actor {
        None => true,
        Some(Type::Service(methods)) => regular(Type::Service(methods)),
        Some(Type::Class(args, body)) => regular_types(args@) && regular(*body),
        Some(_) => false,
    }
}

/// The members of the actor object: none without an actor, `"Spec"` for a
/// service, `"Init"` and `"Spec"` for a class.
pub open spec fn json_of_actor(actor: Option<Type>) -> Seq<(Seq<char>, Json)> {
    match actor {
        Some(Type::Service(methods)) => seq![("Spec"@, json_of(Type::Service(methods)))],
        Some(Type::Class(args, body)) => seq![
            ("Init"@, Json::Array(json_of_types(args@))),
            ("Spec"@, json_of(*body)),
        ],
        _ => Seq::empty(),
    }
}

/// The JSON value of a document: the definitions by name under `"types"`,
/// the actor object under `"actor"`.
pub open spec fn json_of_document(entries: Seq<(String, Type)>, actor: Option<Type>) -> Json {
    Json::Object(
        seq![
            ("types"@, Json::Object(json_of_entries(entries))),
            ("actor"@, Json::Object(json_of_actor(actor))),
        ],
    )
}

/// The name of a primitive type is plain.
proof fn primitive_names_are_plain(ty: Type)
    ensures
        plain(primitive_name(ty)),
{
    reveal_strlit("null");
    reveal_strlit("bool");
    reveal_strlit("nat");
    reveal_strlit("int");
    reveal_strlit("nat8");
    reveal_strlit("nat16");
    reveal_strlit("nat32");
    reveal_strlit("nat64");
    reveal_strlit("int8");
    reveal_strlit("int16");
    reveal_strlit("int32");
    reveal_strlit("int64");
    reveal_strlit("float32");
    reveal_strlit("float64");
    reveal_strlit("text");
    reveal_strlit("principal");
}

/// The tag of a mode is plain.
proof fn mode_tags_are_plain(mode: FuncMode)
    ensures
        plain(mode.tag()),
{
    reveal_strlit("Oneway");
    reveal_strlit("Query");
    reveal_strlit("CompositeQuery");
}

/// The decimal digits of a number are plain.
proof fn decimal_is_plain(n: nat)
    ensures
        plain(decimal(n)),
    decreases n,
{
    if n >= 10 {
        decimal_is_plain(n / 10);
    }
}

/// The text of a numeric or positional label is plain.
pub proof fn numeric_label_is_plain(n: nat)
    ensures
        plain(grouped_decimal(n)),
    decreases n,
{
    if n < 1000 {
        decimal_is_plain(n);
    } else {
        numeric_label_is_plain(n / 1000);
    }
}

/// The list of mode tags squeezes to the compact array items of the tags.
proof fn modes_are_json(modes: Seq<FuncMode>)
    ensures
        squeezes_to(joined_modes(modes), compact_items(json_of_modes(modes))),
        json_of_modes(modes).len() == modes.len(),
    decreases modes.len(),
{
    let items = json_of_modes(modes);
    if modes.len() == 0 {
        assert(squeezed(joined_modes(modes), false) =~= compact_items(items));
    } else {
        let tag = modes.last().tag();
        let item = "\""@ + tag + "\""@;
        mode_tags_are_plain(modes.last());
        quoted_text_is_kept(tag);
        modes_are_json(modes.drop_last());
        assert(items.last() == Json::Text(tag));
        assert(items.drop_last() =~= json_of_modes(modes.drop_last()));
        assert(compact(items.last()) == item);
        if modes.len() == 1 {
            assert(modes[0] == modes.last());
            assert(items[0] == items.last());
            assert(joined_modes(modes) == item);
            assert(compact_items(items) == item);
        } else {
            pieces();
            joined_is_compact(
                joined_modes(modes.drop_last()),
                ","@,
                item,
                compact_items(items.drop_last()),
                item,
            );
            assert(joined_modes(modes) =~= joined_modes(modes.drop_last()) + ","@ + item);
            assert(compact_items(items) == compact_items(items.drop_last()) + ","@ + item);
        }
    }
}

/// What the fixed pieces of the renderer squeeze to.
proof fn pieces()
    ensures
        squeezes_to("{ \"Opt\": "@, "{\""@ + "Opt"@ + "\":"@),
        squeezes_to("{ \"Vec\": "@, "{\""@ + "Vec"@ + "\":"@),
        squeezes_to("{ \"Var\": "@, "{\""@ + "Var"@ + "\":"@),
        squeezes_to("{ \"Tuple\":"@, "{\""@ + "Tuple"@ + "\":"@),
        squeezes_to("{ \"Record\": "@, "{\""@ + "Record"@ + "\":"@),
        squeezes_to("{ \"Variant\": "@, "{\""@ + "Variant"@ + "\":"@),
        squeezes_to("{ \"Service\": "@, "{\""@ + "Service"@ + "\":"@),
        squeezes_to("{ \"Func\": "@, "{\""@ + "Func"@ + "\":"@),
        squeezes_to("{ "@, "{"@),
        squeezes_to("{"@, "{"@),
        squeezes_to(" }"@, "}"@),
        squeezes_to("}"@, "}"@),
        squeezes_to(", "@, ","@),
        squeezes_to(","@, ","@),
        squeezes_to("null"@, "null"@),
        squeezes_to(Seq::<char>::empty(), Seq::<char>::empty()),
{
    reveal_strlit("{ \"Opt\": ");
    reveal_strlit("{ \"Vec\": ");
    reveal_strlit("{ \"Var\": ");
    reveal_strlit("{ \"Tuple\":");
    reveal_strlit("{ \"Record\": ");
    reveal_strlit("{ \"Variant\": ");
    reveal_strlit("{ \"Service\": ");
    reveal_strlit("{ \"Func\": ");
    reveal_strlit("{ ");
    reveal_strlit("{");
    reveal_strlit(" }");
    reveal_strlit("}");
    reveal_strlit(", ");
    reveal_strlit(",");
    reveal_strlit("null");
    reveal_strlit("{\"");
    reveal_strlit("\":");
    reveal_strlit("Opt");
    reveal_strlit("Vec");
    reveal_strlit("Var");
    reveal_strlit("Tuple");
    reveal_strlit("Record");
    reveal_strlit("Variant");
    reveal_strlit("Service");
    reveal_strlit("Func");
    reveal_with_fuel(squeezed, 16);
    reveal_with_fuel(quoted_after, 16);
    assert(squeezed("{ \"Opt\": "@, false) =~= "{\""@ + "Opt"@ + "\":"@);
    assert(squeezed("{ \"Vec\": "@, false) =~= "{\""@ + "Vec"@ + "\":"@);
    assert(squeezed("{ \"Var\": "@, false) =~= "{\""@ + "Var"@ + "\":"@);
    assert(squeezed("{ \"Tuple\":"@, false) =~= "{\""@ + "Tuple"@ + "\":"@);
    assert(squeezed("{ \"Record\": "@, false) =~= "{\""@ + "Record"@ + "\":"@);
    assert(squeezed("{ \"Variant\": "@, false) =~= "{\""@ + "Variant"@ + "\":"@);
    assert(squeezed("{ \"Service\": "@, false) =~= "{\""@ + "Service"@ + "\":"@);
    assert(squeezed("{ \"Func\": "@, false) =~= "{\""@ + "Func"@ + "\":"@);
    assert(squeezed("{ "@, false) =~= "{"@);
    assert(squeezed("{"@, false) =~= "{"@);
    assert(squeezed(" }"@, false) =~= "}"@);
    assert(squeezed("}"@, false) =~= "}"@);
    assert(squeezed(", "@, false) =~= ","@);
    assert(squeezed(","@, false) =~= ","@);
    assert(squeezed("null"@, false) =~= "null"@);
}

/// The joined texts of regular types squeeze to the compact array items
/// of their JSON values.
proof fn types_are_json(types: Seq<Type>)
    requires
        regular_types(types),
    ensures
        squeezes_to(joined_types(types), compact_items(json_of_types(types))),
    decreases types, 1nat,
{
    let items = json_of_types(types);
    if types.len() == 0 {
        assert(squeezed(joined_types(types), false) =~= compact_items(items));
    } else {
        let item = rendered_type(types.last());
        text_is_json(types.last());
        types_are_json(types.drop_last());
        assert(items.last() == json_of(types.last()));
        assert(items.drop_last() =~= json_of_types(types.drop_last()));
        if types.len() == 1 {
            assert(types[0] == types.last());
            assert(items[0] == items.last());
        } else {
            pieces();
            joined_is_compact(
                joined_types(types.drop_last()),
                ","@,
                item,
                compact_items(items.drop_last()),
                compact(items.last()),
            );
        }
    }
}

/// The joined texts of the types of regular fields squeeze to the compact
/// array items of their JSON values.
proof fn field_types_are_json(fields: Seq<Field>)
    requires
        regular_fields(fields),
    ensures
        squeezes_to(joined_field_types(fields), compact_items(json_of_field_types(fields))),
    decreases fields, 1nat,
{
    let items = json_of_field_types(fields);
    if fields.len() == 0 {
        assert(squeezed(joined_field_types(fields), false) =~= compact_items(items));
    } else {
        let item = rendered_type(fields.last().ty);
        text_is_json(fields.last().ty);
        field_types_are_json(fields.drop_last());
        assert(items.last() == json_of(fields.last().ty));
        assert(items.drop_last() =~= json_of_field_types(fields.drop_last()));
        if fields.len() == 1 {
            assert(fields[0] == fields.last());
            assert(items[0] == items.last());
        } else {
            pieces();
            joined_is_compact(
                joined_field_types(fields.drop_last()),
                ","@,
                item,
                compact_items(items.drop_last()),
                compact(items.last()),
            );
        }
    }
}

/// Regular fields squeeze to the compact members of their labels and JSON
/// values.
proof fn fields_are_json(fields: Seq<Field>)
    requires
        regular_fields(fields),
    ensures
        squeezes_to(rendered_fields(fields), compact_members(json_of_fields(fields))),
    decreases fields, 1nat,
{
    let members = json_of_fields(fields);
    if fields.len() == 0 {
        assert(squeezed(rendered_fields(fields), false) =~= compact_members(members));
    } else {
        let last = fields.last();
        text_is_json(last.ty);
        fields_are_json(fields.drop_last());
        member_is_compact(last.id.text(), rendered_type(last.ty), json_of(last.ty));
        assert(members.last() == (last.id.text(), json_of(last.ty)));
        assert(members.drop_last() =~= json_of_fields(fields.drop_last()));
        assert(rendered_field(last) == "\""@ + last.id.text() + "\": "@ + rendered_type(last.ty));
        if fields.len() == 1 {
            assert(fields[0] == last);
            assert(members[0] == members.last());
        } else {
            pieces();
            joined_is_compact(
                rendered_fields(fields.drop_last()),
                ","@,
                rendered_field(last),
                compact_members(members.drop_last()),
                compact_member(members.last()),
            );
        }
    }
}

/// Regular entries squeeze to the compact members of their names and JSON
/// values.
proof fn entries_are_json(entries: Seq<(String, Type)>)
    requires
        regular_entries(entries),
    ensures
        squeezes_to(joined_entries(entries), compact_members(json_of_entries(entries))),
    decreases entries, 1nat,
{
    let members = json_of_entries(entries);
    if entries.len() == 0 {
        assert(squeezed(joined_entries(entries), false) =~= compact_members(members));
    } else {
        let last = entries.last();
        text_is_json(last.1);
        entries_are_json(entries.drop_last());
        member_is_compact(last.0@, rendered_type(last.1), json_of(last.1));
        assert(members.last() == (last.0@, json_of(last.1)));
        assert(members.drop_last() =~= json_of_entries(entries.drop_last()));
        assert(rendered_entry(last) == "\""@ + last.0@ + "\": "@ + rendered_type(last.1));
        if entries.len() == 1 {
            assert(entries[0] == last);
            assert(members[0] == members.last());
        } else {
            pieces();
            joined_is_compact(
                joined_entries(entries.drop_last()),
                ","@,
                rendered_entry(last),
                compact_members(members.drop_last()),
                compact_member(members.last()),
            );
        }
    }
}

/// A type under its key, a blank after the colon and before the closing
/// brace.
proof fn wrapped_is_compact(open: Seq<char>, key: Seq<char>, value: Seq<char>, json: Json)
    requires
        squeezes_to(open, "{\""@ + key + "\":"@),
        squeezes_to(value, compact(json)),
    ensures
        squeezes_to(open + value + " }"@, compact(single(key, json))),
{
    pieces();
    keyed_is_compact(open, key, value, " }"@, json);
}

/// A reference by name under the key `"Var"`.
proof fn var_is_compact(name: Seq<char>)
    requires
        plain(name),
    ensures
        squeezes_to(
            "{ \"Var\": \""@ + name + "\" }"@,
            compact(single("Var"@, Json::Text(name))),
        ),
{
    pieces();
    reveal_strlit("{ \"Var\": \"");
    reveal_strlit("{ \"Var\": ");
    reveal_strlit("\" }");
    reveal_strlit(" }");
    reveal_strlit("\"");
    let value = "\""@ + name + "\""@;
    quoted_text_is_kept(name);
    keyed_is_compact("{ \"Var\": "@, "Var"@, value, " }"@, Json::Text(name));
    assert("{ \"Var\": \""@ + name + "\" }"@ =~= "{ \"Var\": "@ + value + " }"@);
}

/// The items of a tuple under the key `"Tuple"`.
proof fn tuple_is_compact(joined: Seq<char>, items: Seq<Json>)
    requires
        squeezes_to(joined, compact_items(items)),
    ensures
        squeezes_to(
            "{ \"Tuple\":"@ + "["@ + joined + "]"@ + "}"@,
            compact(single("Tuple"@, Json::Array(items))),
        ),
{
    pieces();
    let value = "["@ + joined + "]"@;
    array_is_compact(joined, items);
    keyed_is_compact("{ \"Tuple\":"@, "Tuple"@, value, "}"@, Json::Array(items));
    assert("{ \"Tuple\":"@ + "["@ + joined + "]"@ + "}"@ =~= "{ \"Tuple\":"@ + value + "}"@);
}

/// The members of a record under the key `"Record"`.
proof fn record_is_compact(joined: Seq<char>, members: Seq<(Seq<char>, Json)>)
    requires
        squeezes_to(joined, compact_members(members)),
    ensures
        squeezes_to(
            "{ \"Record\": { "@ + joined + " } }"@,
            compact(single("Record"@, Json::Object(members))),
        ),
{
    pieces();
    reveal_strlit("{ \"Record\": { ");
    reveal_strlit("{ \"Record\": ");
    reveal_strlit("{ ");
    reveal_strlit(" } }");
    reveal_strlit(" }");
    let value = "{ "@ + joined + " }"@;
    object_is_compact("{ "@, joined, " }"@, members);
    keyed_is_compact("{ \"Record\": "@, "Record"@, value, " }"@, Json::Object(members));
    assert("{ \"Record\": { "@ + joined + " } }"@ =~= "{ \"Record\": "@ + value + " }"@);
}

/// The members of a variant under the key `"Variant"`.
proof fn variant_is_compact(joined: Seq<char>, members: Seq<(Seq<char>, Json)>)
    requires
        squeezes_to(joined, compact_members(members)),
    ensures
        squeezes_to(
            "{ \"Variant\": { "@ + joined + " } }"@,
            compact(single("Variant"@, Json::Object(members))),
        ),
{
    pieces();
    reveal_strlit("{ \"Variant\": { ");
    reveal_strlit("{ \"Variant\": ");
    reveal_strlit("{ ");
    reveal_strlit(" } }");
    reveal_strlit(" }");
    let value = "{ "@ + joined + " }"@;
    object_is_compact("{ "@, joined, " }"@, members);
    keyed_is_compact("{ \"Variant\": "@, "Variant"@, value, " }"@, Json::Object(members));
    assert("{ \"Variant\": { "@ + joined + " } }"@ =~= "{ \"Variant\": "@ + value + " }"@);
}

/// The methods of a service under the key `"Service"`.
proof fn service_is_compact(joined: Seq<char>, members: Seq<(Seq<char>, Json)>)
    requires
        squeezes_to(joined, compact_members(members)),
    ensures
        squeezes_to(
            "{ \"Service\": {"@ + joined + "}}"@,
            compact(single("Service"@, Json::Object(members))),
        ),
{
    pieces();
    reveal_strlit("{ \"Service\": {");
    reveal_strlit("{ \"Service\": ");
    reveal_strlit("{");
    reveal_strlit("}}");
    reveal_strlit("}");
    let value = "{"@ + joined + "}"@;
    object_is_compact("{"@, joined, "}"@, members);
    keyed_is_compact("{ \"Service\": "@, "Service"@, value, "}"@, Json::Object(members));
    assert("{ \"Service\": {"@ + joined + "}}"@ =~= "{ \"Service\": "@ + value + "}"@);
}

/// The three members of a function signature, a comma and a blank between
/// them.
proof fn signature_is_compact(
    args: Seq<char>,
    rets: Seq<char>,
    modes: Seq<char>,
    json_args: Json,
    json_rets: Json,
    json_modes: Json,
)
    requires
        squeezes_to(args, compact(json_args)),
        squeezes_to(rets, compact(json_rets)),
        squeezes_to(modes, compact(json_modes)),
    ensures
        squeezes_to(
            "\""@ + "args"@ + "\": "@ + args + ", "@ + ("\""@ + "rets"@ + "\": "@ + rets) + ", "@ + (
            "\""@ + "modes"@ + "\": "@ + modes),
            compact_members(
                seq![("args"@, json_args), ("rets"@, json_rets), ("modes"@, json_modes)],
            ),
        ),
{
    pieces();
    reveal_strlit("args");
    reveal_strlit("rets");
    reveal_strlit("modes");
    member_is_compact("args"@, args, json_args);
    member_is_compact("rets"@, rets, json_rets);
    member_is_compact("modes"@, modes, json_modes);
    let first = "\""@ + "args"@ + "\": "@ + args;
    let second = "\""@ + "rets"@ + "\": "@ + rets;
    let third = "\""@ + "modes"@ + "\": "@ + modes;
    let members = seq![("args"@, json_args), ("rets"@, json_rets), ("modes"@, json_modes)];
    joined_is_compact(
        first,
        ", "@,
        second,
        compact_member(members[0]),
        compact_member(members[1]),
    );
    joined_is_compact(
        first + ", "@ + second,
        ", "@,
        third,
        compact_member(members[0]) + ","@ + compact_member(members[1]),
        compact_member(members[2]),
    );
    assert(compact_members(members) == compact_members(members.drop_last()) + ","@
        + compact_member(members[2]));
    assert(members.drop_last().drop_last() =~= seq![members[0]]);
    assert(compact_members(members.drop_last()) == compact_members(
        members.drop_last().drop_last(),
    ) + ","@ + compact_member(members[1]));
    assert(compact_members(members.drop_last().drop_last()) == compact_member(members[0]));
}

/// A function signature under the key `"Func"`.
proof fn func_is_compact(
    args: Seq<char>,
    rets: Seq<char>,
    modes: Seq<char>,
    json_args: Json,
    json_rets: Json,
    json_modes: Json,
)
    requires
        squeezes_to(args, compact(json_args)),
        squeezes_to(rets, compact(json_rets)),
        squeezes_to(modes, compact(json_modes)),
    ensures
        squeezes_to(
            "{ \"Func\": { \"args\": "@ + args + ", \"rets\": "@ + rets + ", \"modes\": "@ + modes
                + " } }"@,
            compact(
                single(
                    "Func"@,
                    Json::Object(
                        seq![("args"@, json_args), ("rets"@, json_rets), ("modes"@, json_modes)],
                    ),
                ),
            ),
        ),
{
    pieces();
    signature_is_compact(args, rets, modes, json_args, json_rets, json_modes);
    let members = seq![("args"@, json_args), ("rets"@, json_rets), ("modes"@, json_modes)];
    let joined = "\""@ + "args"@ + "\": "@ + args + ", "@ + ("\""@ + "rets"@ + "\": "@ + rets)
        + ", "@ + ("\""@ + "modes"@ + "\": "@ + modes);
    object_is_compact("{ "@, joined, " }"@, members);
    let value = "{ "@ + joined + " }"@;
    keyed_is_compact("{ \"Func\": "@, "Func"@, value, " }"@, Json::Object(members));
    reveal_strlit("{ \"Func\": { \"args\": ");
    reveal_strlit("{ \"Func\": ");
    reveal_strlit("{ ");
    reveal_strlit("\"");
    reveal_strlit("\": ");
    reveal_strlit("args");
    reveal_strlit("rets");
    reveal_strlit("modes");
    reveal_strlit(", \"rets\": ");
    reveal_strlit(", \"modes\": ");
    reveal_strlit(", ");
    reveal_strlit(" } }");
    reveal_strlit(" }");
    assert("{ \"Func\": { \"args\": "@ + args + ", \"rets\": "@ + rets + ", \"modes\": "@ + modes
        + " } }"@ =~= "{ \"Func\": "@ + value + " }"@);
}

/// With the blanks outside of strings taken out, the text of a regular
/// type is the compact text of its JSON value, and the text ends outside
/// of any string.
///
/// So the text of a regular type is JSON text, and for every type that is
/// neither a primitive nor the null type it is an object with a single
/// key, which names the variant of the type.
pub proof fn text_is_json(ty: Type)
    requires
        regular(ty),
    ensures
        squeezes_to(rendered_type(ty), compact(json_of(ty))),
    decreases ty, 0nat,
{
    match ty {
        Type::Null => {
            pieces();
        },
        Type::Opt(inner) => {
            pieces();
            text_is_json(*inner);
            wrapped_is_compact("{ \"Opt\": "@, "Opt"@, rendered_type(*inner), json_of(*inner));
        },
        Type::Vec(inner) => {
            pieces();
            text_is_json(*inner);
            wrapped_is_compact("{ \"Vec\": "@, "Vec"@, rendered_type(*inner), json_of(*inner));
        },
        Type::Var(name) => {
            var_is_compact(name@);
        },
        Type::Record(fields) => {
            if tuple_fields(fields@) {
                field_types_are_json(fields@);
                tuple_is_compact(joined_field_types(fields@), json_of_field_types(fields@));
            } else {
                fields_are_json(fields@);
                record_is_compact(rendered_fields(fields@), json_of_fields(fields@));
            }
        },
        Type::Variant(fields) => {
            fields_are_json(fields@);
            variant_is_compact(rendered_fields(fields@), json_of_fields(fields@));
        },
        Type::Service(methods) => {
            entries_are_json(methods@);
            service_is_compact(joined_entries(methods@), json_of_entries(methods@));
        },
        Type::Func(f) => {
            types_are_json(f.args@);
            types_are_json(f.rets@);
            modes_are_json(f.modes@);
            array_is_compact(joined_types(f.args@), json_of_types(f.args@));
            array_is_compact(joined_types(f.rets@), json_of_types(f.rets@));
            array_is_compact(joined_modes(f.modes@), json_of_modes(f.modes@));
            func_is_compact(
                rendered_array(f.args@),
                rendered_array(f.rets@),
                rendered_modes(f.modes@),
                Json::Array(json_of_types(f.args@)),
                Json::Array(json_of_types(f.rets@)),
                Json::Array(json_of_modes(f.modes@)),
            );
        },
        Type::Knot(_) | Type::Empty | Type::Reserved | Type::Unknown | Type::Class(_, _) => {},
        _ => {
            primitive_names_are_plain(ty);
            quoted_text_is_kept(primitive_name(ty));
        },
    }
}

/// With the blanks outside of strings taken out, the inside of the actor
/// object is the compact text of the actor's members.
pub proof fn actor_is_json(actor: Option<Type>)
    requires
        regular_actor(actor),
    ensures
        squeezes_to(rendered_actor(actor), compact_members(json_of_actor(actor))),
{
    pieces();
    let members = json_of_actor(actor);
    match actor {
        Some(Type::Service(methods)) => {
            let service = Type::Service(methods);
            reveal_strlit("\"Spec\": ");
            reveal_strlit("\"");
            reveal_strlit("Spec");
            reveal_strlit("\": ");
            text_is_json(service);
            member_is_compact("Spec"@, rendered_type(service), json_of(service));
            assert(rendered_actor(actor) =~= "\""@ + "Spec"@ + "\": "@ + rendered_type(service));
            assert(compact_members(members) == compact_member(members[0]));
        },
        Some(Type::Class(args, body)) => {
            reveal_strlit("\"Init\": ");
            reveal_strlit(", \"Spec\": ");
            reveal_strlit("\"");
            reveal_strlit("Init");
            reveal_strlit("Spec");
            reveal_strlit("\": ");
            reveal_strlit(", ");
            types_are_json(args@);
            array_is_compact(joined_types(args@), json_of_types(args@));
            text_is_json(*body);
            let init = "\""@ + "Init"@ + "\": "@ + rendered_array(args@);
            let spec = "\""@ + "Spec"@ + "\": "@ + rendered_type(*body);
            member_is_compact("Init"@, rendered_array(args@), Json::Array(json_of_types(args@)));
            member_is_compact("Spec"@, rendered_type(*body), json_of(*body));
            joined_is_compact(
                init,
                ", "@,
                spec,
                compact_member(members[0]),
                compact_member(members[1]),
            );
            assert(rendered_actor(actor) =~= init + ", "@ + spec);
            assert(members.drop_last() =~= seq![members[0]]);
            assert(compact_members(members.drop_last()) == compact_member(members[0]));
            assert(compact_members(members) == compact_members(members.drop_last()) + ","@
                + compact_member(members[1]));
        },
        _ => {
            assert(squeezed(rendered_actor(actor), false) =~= compact_members(members));
        },
    }
}

/// Two object members, a comma and a blank between them, in braces.
proof fn pair_is_compact(
    first_key: Seq<char>,
    first: Seq<char>,
    first_json: Json,
    second_key: Seq<char>,
    second: Seq<char>,
    second_json: Json,
)
    requires
        plain(first_key),
        plain(second_key),
        squeezes_to(first, compact(first_json)),
        squeezes_to(second, compact(second_json)),
    ensures
        squeezes_to(
            "{ "@ + ("\""@ + first_key + "\": "@ + first + ", "@ + ("\""@ + second_key + "\": "@
                + second)) + "}"@,
            compact(Json::Object(seq![(first_key, first_json), (second_key, second_json)])),
        ),
{
    pieces();
    let members = seq![(first_key, first_json), (second_key, second_json)];
    let one = "\""@ + first_key + "\": "@ + first;
    let two = "\""@ + second_key + "\": "@ + second;
    member_is_compact(first_key, first, first_json);
    member_is_compact(second_key, second, second_json);
    joined_is_compact(one, ", "@, two, compact_member(members[0]), compact_member(members[1]));
    assert(members.drop_last() =~= seq![members[0]]);
    assert(compact_members(members.drop_last()) == compact_member(members[0]));
    assert(compact_members(members) == compact_members(members.drop_last()) + ","@
        + compact_member(members[1]));
    object_is_compact("{ "@, one + ", "@ + two, "}"@, members);
}

/// With the blanks outside of strings taken out, the document of regular
/// definitions and a regular actor is the compact text of its JSON value:
/// an object with the definitions by name under `"types"` and the actor
/// object under `"actor"`. Without an actor that object is empty.
pub proof fn document_is_json(entries: Seq<(String, Type)>, actor: Option<Type>)
    requires
        regular_entries(entries),
        regular_actor(actor),
    ensures
        squeezes_to(rendered_document(entries, actor), compact(json_of_document(entries, actor))),
        actor.is_none() ==> json_of_actor(actor).len() == 0,
{
    pieces();
    let types = "{"@ + joined_entries(entries) + "}"@;
    let inside = "{"@ + rendered_actor(actor) + "}"@;
    entries_are_json(entries);
    actor_is_json(actor);
    object_is_compact("{"@, joined_entries(entries), "}"@, json_of_entries(entries));
    object_is_compact("{"@, rendered_actor(actor), "}"@, json_of_actor(actor));
    reveal_strlit("types");
    reveal_strlit("actor");
    pair_is_compact(
        "types"@,
        types,
        Json::Object(json_of_entries(entries)),
        "actor"@,
        inside,
        Json::Object(json_of_actor(actor)),
    );
    reveal_strlit("{ \"types\": {");
    reveal_strlit("}, \"actor\": {");
    reveal_strlit("}}");
    reveal_strlit("{ ");
    reveal_strlit("{");
    reveal_strlit("}");
    reveal_strlit("\"");
    reveal_strlit("\": ");
    reveal_strlit(", ");
    assert(rendered_document(entries, actor) =~= "{ "@ + ("\""@ + "types"@ + "\": "@ + types
        + ", "@ + ("\""@ + "actor"@ + "\": "@ + inside)) + "}"@);
}

} // verus!
