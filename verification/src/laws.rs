//! Laws of the renderer, stated over the text functions and proved.

use vstd::prelude::*;
use crate::render::{
    joined_entries, joined_field_types, joined_modes, joined_types, rendered_actor,
    rendered_array, rendered_document, rendered_fields, rendered_type, tuple_fields,
};
use crate::json::{single, Json};
use crate::structure::json_of;
use crate::types::{Field, FuncMode, Label, Type};

verus! {

/// A non-empty record whose labels are the numeric labels `0, 1, 2, ...`
/// in declaration order has the fields of a tuple.
pub proof fn positional_fields_are_tuple(fields: Seq<Field>)
    requires
        fields.len() > 0,
        forall|i: int|
            0 <= i < fields.len() ==> match (#[trigger] fields[i]).id {
                Label::Id(n) => n == i,
                Label::Unnamed(n) => n == i,
                Label::Named(_) => false,
            },
    ensures
        tuple_fields(fields),
{
}

/// The record without fields is no tuple.
pub proof fn empty_record_is_no_tuple(fields: Seq<Field>)
    requires
        fields.len() == 0,
    ensures
        !tuple_fields(fields),
{
}

/// A record in which some label is not the numeric label of its position
/// is no tuple: a number out of sequence or out of order.
pub proof fn misplaced_label_is_no_tuple(fields: Seq<Field>, i: int)
    requires
        0 <= i < fields.len(),
        !fields[i].id.is_position(i),
    ensures
        !tuple_fields(fields),
{
}

/// A record with a declared name among its labels is no tuple, whatever
/// the name and wherever it stands.
pub proof fn named_field_is_no_tuple(fields: Seq<Field>, i: int)
    requires
        0 <= i < fields.len(),
        fields[i].id is Named,
    ensures
        !tuple_fields(fields),
{
    assert(!fields[i].id.is_position(i));
}

/// A numeric or positional label is the label of the position of its own
/// number and of no other, and is known to the wire format by that number.
pub proof fn numeric_label_is_its_position(n: u32, i: int)
    ensures
        Label::Id(n).is_position(i) <==> n == i,
        Label::Unnamed(n).is_position(i) <==> n == i,
        Label::Id(n).id() == n,
        Label::Unnamed(n).id() == n,
{
}

/// The text of a type depends on the type alone. Every rendering of a type
/// is the text that `rendered_type` gives for it, which is what the
/// renderer ensures; so two renderings of one type are the same text.
pub proof fn rendering_is_deterministic(ty: Type, first: Seq<char>, second: Seq<char>)
    requires
        first == rendered_type(ty),
        second == rendered_type(ty),
    ensures
        first == second,
{
}

/// The key under which a type is written: none for a primitive, a class
/// and the three types without content.
pub open spec fn outer_key(ty: Type) -> Option<Seq<char>> {
    match ty {
        Type::Opt(_) => Some("Opt"@),
        Type::Vec(_) => Some("Vec"@),
        Type::Var(_) => Some("Var"@),
        Type::Record(fields) => if tuple_fields(fields@) {
            Some("Tuple"@)
        } else {
            Some("Record"@)
        },
        Type::Variant(_) => Some("Variant"@),
        Type::Service(_) => Some("Service"@),
        Type::Func(_) => Some("Func"@),
        Type::Knot(_) => Some("Knot"@),
        _ => None,
    }
}

/// The opening of an object whose first key is `key`.
pub open spec fn object_opening(key: Seq<char>) -> Seq<char> {
    "{ \""@ + key + "\":"@
}

/// The text of a type that is written under a key opens an object with
/// that key, which names the variant of the type, and closes it.
pub proof fn fragment_opens_with_its_key(ty: Type)
    requires
        outer_key(ty).is_some(),
    ensures
        object_opening(outer_key(ty).unwrap()).is_prefix_of(rendered_type(ty)),
        rendered_type(ty).last() == '}',
{
    reveal_strlit("{ \"");
    reveal_strlit("\":");
    reveal_strlit("}");
    reveal_strlit(" }");
    reveal_strlit("}}");
    reveal_strlit(" } }");
    reveal_strlit("\" }");
    let opening = object_opening(outer_key(ty).unwrap());
    let text = rendered_type(ty);
    match ty {
        Type::Opt(_) => {
            reveal_strlit("Opt");
            reveal_strlit("{ \"Opt\": ");
            assert(opening =~= text.subrange(0, opening.len() as int));
        },
        Type::Vec(_) => {
            reveal_strlit("Vec");
            reveal_strlit("{ \"Vec\": ");
            assert(opening =~= text.subrange(0, opening.len() as int));
        },
        Type::Var(_) => {
            reveal_strlit("Var");
            reveal_strlit("{ \"Var\": \"");
            assert(opening =~= text.subrange(0, opening.len() as int));
        },
        Type::Record(fields) => {
            if tuple_fields(fields@) {
                reveal_strlit("Tuple");
                reveal_strlit("{ \"Tuple\":");
                assert(opening =~= text.subrange(0, opening.len() as int));
            } else {
                reveal_strlit("Record");
                reveal_strlit("{ \"Record\": { ");
                assert(opening =~= text.subrange(0, opening.len() as int));
            }
        },
        Type::Variant(_) => {
            reveal_strlit("Variant");
            reveal_strlit("{ \"Variant\": { ");
            assert(opening =~= text.subrange(0, opening.len() as int));
        },
        Type::Service(_) => {
            reveal_strlit("Service");
            reveal_strlit("{ \"Service\": {");
            assert(opening =~= text.subrange(0, opening.len() as int));
        },
        Type::Func(_) => {
            reveal_strlit("Func");
            reveal_strlit("{ \"Func\": { \"args\": ");
            assert(opening =~= text.subrange(0, opening.len() as int));
        },
        Type::Knot(_) => {
            reveal_strlit("Knot");
            reveal_strlit("{ \"Knot\": ");
            assert(opening =~= text.subrange(0, opening.len() as int));
        },
        _ => {},
    }
}

/// The JSON value of a type that is written under a key is an object with
/// that key as its single member.
pub proof fn value_has_single_key(ty: Type)
    requires
        outer_key(ty).is_some(),
        !(ty is Knot),
    ensures
        exists|value: Json| json_of(ty) == single(outer_key(ty).unwrap(), value),
{
    match json_of(ty) {
        Json::Object(members) => {
            assert(json_of(ty) == single(outer_key(ty).unwrap(), members[0].1));
        },
        _ => {},
    }
}

/// A record in which some label is not the numeric label of its position,
/// a declared name among them, is written under the key `"Record"`, never
/// as a tuple.
pub proof fn misplaced_label_is_written_as_record(fields: Vec<Field>, i: int)
    requires
        0 <= i < fields@.len(),
        !fields@[i].id.is_position(i),
    ensures
        outer_key(Type::Record(fields)) == Some("Record"@),
        object_opening("Record"@).is_prefix_of(rendered_type(Type::Record(fields))),
{
    fragment_opens_with_its_key(Type::Record(fields));
}

/// A type is written as no text at all exactly when it is one of the three
/// types without content.
pub proof fn no_text_only_without_content(ty: Type)
    ensures
        rendered_type(ty).len() == 0 <==> (ty == Type::Empty || ty == Type::Reserved || ty
            == Type::Unknown),
{
    reveal_strlit("\"");
    reveal_strlit("null");
    reveal_strlit("{ \"Opt\": ");
    reveal_strlit("{ \"Vec\": ");
    reveal_strlit("{ \"Var\": \"");
    reveal_strlit("{ \"Tuple\":");
    reveal_strlit("{ \"Record\": { ");
    reveal_strlit("{ \"Variant\": { ");
    reveal_strlit("{ \"Service\": {");
    reveal_strlit("{ \"Func\": { \"args\": ");
    reveal_strlit("{ \"Knot\": ");
    reveal_strlit("\"Init\": ");
}

/// Order is kept: the text of two lists of types one after the other is
/// the text of the first, a comma, and the text of the second.
pub proof fn joined_types_keep_order(first: Seq<Type>, second: Seq<Type>)
    requires
        first.len() > 0,
        second.len() > 0,
    ensures
        joined_types(first + second) == joined_types(first) + ","@ + joined_types(second),
    decreases second.len(),
{
    let all = first + second;
    assert(all.last() == second.last());
    if second.len() == 1 {
        assert(all.drop_last() =~= first);
        assert(second[0] == second.last());
    } else {
        assert(all.drop_last() =~= first + second.drop_last());
        joined_types_keep_order(first, second.drop_last());
        assert(joined_types(all) =~= joined_types(first) + ","@ + joined_types(second));
    }
}

/// Order is kept among fields: the members of two lists of fields one
/// after the other are the members of the first, a comma, and the members
/// of the second.
pub proof fn rendered_fields_keep_order(first: Seq<Field>, second: Seq<Field>)
    requires
        first.len() > 0,
        second.len() > 0,
    ensures
        rendered_fields(first + second) == rendered_fields(first) + ","@ + rendered_fields(second),
    decreases second.len(),
{
    let all = first + second;
    assert(all.last() == second.last());
    if second.len() == 1 {
        assert(all.drop_last() =~= first);
        assert(second[0] == second.last());
    } else {
        assert(all.drop_last() =~= first + second.drop_last());
        rendered_fields_keep_order(first, second.drop_last());
        assert(rendered_fields(all) =~= rendered_fields(first) + ","@ + rendered_fields(second));
    }
}

/// Order is kept among named entries, the methods of a service and the
/// definitions of a document alike.
pub proof fn joined_entries_keep_order(first: Seq<(String, Type)>, second: Seq<(String, Type)>)
    requires
        first.len() > 0,
        second.len() > 0,
    ensures
        joined_entries(first + second) == joined_entries(first) + ","@ + joined_entries(second),
    decreases second.len(),
{
    let all = first + second;
    assert(all.last() == second.last());
    if second.len() == 1 {
        assert(all.drop_last() =~= first);
        assert(second[0] == second.last());
    } else {
        assert(all.drop_last() =~= first + second.drop_last());
        joined_entries_keep_order(first, second.drop_last());
        assert(joined_entries(all) =~= joined_entries(first) + ","@ + joined_entries(second));
    }
}

/// Order is kept among mode flags.
pub proof fn joined_modes_keep_order(first: Seq<FuncMode>, second: Seq<FuncMode>)
    requires
        first.len() > 0,
        second.len() > 0,
    ensures
        joined_modes(first + second) == joined_modes(first) + ","@ + joined_modes(second),
    decreases second.len(),
{
    let all = first + second;
    assert(all.last() == second.last());
    if second.len() == 1 {
        assert(all.drop_last() =~= first);
        assert(second[0] == second.last());
    } else {
        assert(all.drop_last() =~= first + second.drop_last());
        joined_modes_keep_order(first, second.drop_last());
        assert(joined_modes(all) =~= joined_modes(first) + ","@ + joined_modes(second));
    }
}

/// The array of a tuple holds the texts of the fields' types, labels
/// dropped, in declaration order.
pub proof fn tuple_items_are_field_types(fields: Seq<Field>)
    ensures
        joined_field_types(fields) == joined_types(fields.map_values(|f: Field| f.ty)),
    decreases fields.len(),
{
    let types = fields.map_values(|f: Field| f.ty);
    if fields.len() == 0 {
    } else if fields.len() == 1 {
        assert(types[0] == fields[0].ty);
    } else {
        assert(types.drop_last() =~= fields.drop_last().map_values(|f: Field| f.ty));
        assert(types.last() == fields.last().ty);
        tuple_items_are_field_types(fields.drop_last());
    }
}

/// Without an actor the document ends in an empty actor object: after the
/// definitions nothing follows but `}, "actor": {` and `}}`, so neither
/// `"Spec"` nor `"Init"` is written for the actor.
pub proof fn absent_actor_is_empty_object(entries: Seq<(String, Type)>)
    ensures
        rendered_actor(None) == Seq::<char>::empty(),
        rendered_document(entries, None) == "{ \"types\": {"@ + joined_entries(entries)
            + "}, \"actor\": {"@ + "}}"@,
{
    assert(rendered_document(entries, None) =~= "{ \"types\": {"@ + joined_entries(entries)
        + "}, \"actor\": {"@ + "}}"@);
}

/// A service actor stands under the key `"Spec"`; a class actor brings its
/// own keys `"Init"` and `"Spec"`.
pub proof fn actor_is_found_under_spec(actor: Type)
    ensures
        actor is Service ==> rendered_actor(Some(actor)) == "\"Spec\": "@ + rendered_type(actor),
        actor matches Type::Class(args, body) ==> rendered_actor(Some(actor)) == "\"Init\": "@
            + rendered_array(args@) + ", \"Spec\": "@ + rendered_type(*body),
{
}

} // verus!
