//! What the renderer writes, as a function from types to text.

use vstd::prelude::*;
use crate::types::{Field, FuncMode, Label, Type};

verus! {

/// Whether the fields are those of a tuple: there is a first field, its
/// label is the numeric label `0`, and the label of the field at each
/// position is the numeric label of that position. A field with a declared
/// name makes a named record.
pub open spec fn tuple_fields(fields: Seq<Field>) -> bool {
    &&& fields.len() > 0
    &&& fields[0].id.is_position(0)
    &&& forall|i: int| 0 <= i < fields.len() ==> (#[trigger] fields[i]).id.is_position(i)
}

/// Whether a type is a record with the fields of a tuple.
pub open spec fn tuple_shaped(ty: Type) -> bool {
    match ty {
        Type::Record(fields) => tuple_fields(fields@),
        _ => false,
    }
}

/// Whether a type is a primitive: one of the leaves that are written by
/// name.
pub open spec fn is_primitive(ty: Type) -> bool {
    match ty {
        Type::Null
        | Type::Bool
        | Type::Nat
        | Type::Int
        | Type::Nat8
        | Type::Nat16
        | Type::Nat32
        | Type::Nat64
        | Type::Int8
        | Type::Int16
        | Type::Int32
        | Type::Int64
        | Type::Float32
        | Type::Float64
        | Type::Text
        | Type::Principal => true,
        _ => false,
    }
}

/// The canonical name of a primitive type; no text for any other type.
pub open spec fn primitive_name(ty: Type) -> Seq<char> {
    match ty {
        Type::Null => "null"@,
        Type::Bool => "bool"@,
        Type::Nat => "nat"@,
        Type::Int => "int"@,
        Type::Nat8 => "nat8"@,
        Type::Nat16 => "nat16"@,
        Type::Nat32 => "nat32"@,
        Type::Nat64 => "nat64"@,
        Type::Int8 => "int8"@,
        Type::Int16 => "int16"@,
        Type::Int32 => "int32"@,
        Type::Int64 => "int64"@,
        Type::Float32 => "float32"@,
        Type::Float64 => "float64"@,
        Type::Text => "text"@,
        Type::Principal => "principal"@,
        _ => Seq::empty(),
    }
}

/// The mode tags, each in double quotes, with a comma between neighbours.
pub open spec fn joined_modes(modes: Seq<FuncMode>) -> Seq<char>
    decreases modes.len(),
{
    if modes.len() == 0 {
        Seq::empty()
    } else if modes.len() == 1 {
        "\""@ + modes[0].tag() + "\""@
    } else {
        joined_modes(modes.drop_last()) + ","@ + "\""@ + modes.last().tag() + "\""@
    }
}

/// A list of mode flags as a JSON array of their tags, in the given order.
pub open spec fn rendered_modes(modes: Seq<FuncMode>) -> Seq<char> {
    "["@ + joined_modes(modes) + "]"@
}

/// The text of one type.
///
/// A primitive is its name in double quotes, but for `null`, which is
/// written bare. A reference is written by name and never followed. The
/// three types without content are written as no text at all, and a class
/// as the two members `"Init"` and `"Spec"` without braces round them.
pub open spec fn rendered_type(ty: Type) -> Seq<char>
    decreases ty, 0nat,
{
    match ty {
        Type::Null => primitive_name(ty),
        Type::Bool
        | Type::Nat
        | Type::Int
        | Type::Nat8
        | Type::Nat16
        | Type::Nat32
        | Type::Nat64
        | Type::Int8
        | Type::Int16
        | Type::Int32
        | Type::Int64
        | Type::Float32
        | Type::Float64
        | Type::Text
        | Type::Principal => "\""@ + primitive_name(ty) + "\""@,
        Type::Opt(inner) => "{ \"Opt\": "@ + rendered_type(*inner) + " }"@,
        Type::Vec(inner) => "{ \"Vec\": "@ + rendered_type(*inner) + " }"@,
        Type::Var(name) => "{ \"Var\": \""@ + name@ + "\" }"@,
        Type::Record(fields) => if tuple_fields(fields@) {
            "{ \"Tuple\":"@ + "["@ + joined_field_types(fields@) + "]"@ + "}"@
        } else {
            "{ \"Record\": { "@ + rendered_fields(fields@) + " } }"@
        },
        Type::Variant(fields) => "{ \"Variant\": { "@ + rendered_fields(fields@) + " } }"@,
        Type::Service(methods) => "{ \"Service\": {"@ + joined_entries(methods@) + "}}"@,
        Type::Func(f) => "{ \"Func\": { \"args\": "@ + rendered_array(f.args@) + ", \"rets\": "@
            + rendered_array(f.rets@) + ", \"modes\": "@ + rendered_modes(f.modes@) + " } }"@,
        Type::Empty | Type::Reserved | Type::Unknown => Seq::empty(),
        Type::Knot(id) => "{ \"Knot\": "@ + id.name@ + " }"@,
        Type::Class(args, body) => "\"Init\": "@ + rendered_array(args@) + ", \"Spec\": "@
            + rendered_type(*body),
    }
}

/// The texts of the types, in the given order, with a comma between
/// neighbours.
pub open spec fn joined_types(types: Seq<Type>) -> Seq<char>
    decreases types, 1nat,
{
    if types.len() == 0 {
        Seq::empty()
    } else if types.len() == 1 {
        rendered_type(types[0])
    } else {
        joined_types(types.drop_last()) + ","@ + rendered_type(types.last())
    }
}

/// A list of types as a JSON array, in the given order.
pub open spec fn rendered_array(types: Seq<Type>) -> Seq<char>
    decreases types, 2nat,
{
    "["@ + joined_types(types) + "]"@
}

/// The texts of the fields' types, labels dropped, in declaration order,
/// with a comma between neighbours.
pub open spec fn joined_field_types(fields: Seq<Field>) -> Seq<char>
    decreases fields, 1nat,
{
    if fields.len() == 0 {
        Seq::empty()
    } else if fields.len() == 1 {
        rendered_type(fields[0].ty)
    } else {
        joined_field_types(fields.drop_last()) + ","@ + rendered_type(fields.last().ty)
    }
}

/// One field as an object member: the label in double quotes, a colon and
/// the text of the field's type.
pub open spec fn rendered_field(field: Field) -> Seq<char>
    decreases field, 1nat,
{
    "\""@ + field.id.text() + "\": "@ + rendered_type(field.ty)
}

/// The fields as object members, in declaration order, with a comma between
/// neighbours.
pub open spec fn rendered_fields(fields: Seq<Field>) -> Seq<char>
    decreases fields, 2nat,
{
    if fields.len() == 0 {
        Seq::empty()
    } else if fields.len() == 1 {
        rendered_field(fields[0])
    } else {
        rendered_fields(fields.drop_last()) + ","@ + rendered_field(fields.last())
    }
}

/// One named entry as an object member: the name in double quotes, a colon
/// and the text of the type.
pub open spec fn rendered_entry(entry: (String, Type)) -> Seq<char>
    decreases entry, 1nat,
{
    "\""@ + entry.0@ + "\": "@ + rendered_type(entry.1)
}

/// The named entries as object members, in the given order, with a comma
/// between neighbours.
pub open spec fn joined_entries(entries: Seq<(String, Type)>) -> Seq<char>
    decreases entries, 2nat,
{
    if entries.len() == 0 {
        Seq::empty()
    } else if entries.len() == 1 {
        rendered_entry(entries[0])
    } else {
        joined_entries(entries.drop_last()) + ","@ + rendered_entry(entries.last())
    }
}

/// The inside of the actor object. Without an actor it is empty. A service
/// stands under the key `"Spec"`. Any other type is written as it is, which
/// for a class gives the members `"Init"` and `"Spec"`.
pub open spec fn rendered_actor(actor: Option<Type>) -> Seq<char> {
    match actor {
        None => Seq::empty(),
        Some(Type::Service(methods)) => "\"Spec\": "@ + rendered_type(Type::Service(methods)),
        Some(other) => rendered_type(other),
    }
}

/// The whole document: the named definitions in the order of the
/// environment under `"types"`, then the actor under `"actor"`.
pub open spec fn rendered_document(entries: Seq<(String, Type)>, actor: Option<Type>) -> Seq<
    char,
> {
    "{ \"types\": {"@ + joined_entries(entries) + "}, \"actor\": {"@ + rendered_actor(actor)
        + "}}"@
}

} // verus!
