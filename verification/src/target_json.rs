//! The renderer: from types to JSON text.

use vstd::prelude::*;
use candid::types::Type as Checked;
use crate::render::{
    is_primitive, joined_entries, joined_field_types, joined_modes, joined_types, primitive_name,
    rendered_array, rendered_document, rendered_entry, rendered_field, rendered_fields,
    rendered_modes, rendered_type, tuple_fields, tuple_shaped,
};
use crate::env::TypeEnv;
use crate::types::{Field, FuncMode, Label, Type};

verus! {

/// Whether a label is the numeric label of a position.
fn labels_position(label: &Label, i: usize) -> (at: bool)
    ensures
        at == label.is_position(i as int),
{
    match label {
        Label::Id(n) => i <= 0xffff_ffff && *n == (i as u32),
        Label::Named(_) => false,
        Label::Unnamed(n) => i <= 0xffff_ffff && *n == (i as u32),
    }
}

/// Whether the fields are those of a tuple.
fn tuple_labels(fs: &Vec<Field>) -> (tuple: bool)
    ensures
        tuple == tuple_fields(fs@),
{
    if fs.len() == 0 {
        return false;
    }
    let mut i: usize = 0;
    while i < fs.len()
        invariant
            i <= fs.len(),
            forall|j: int| 0 <= j < i ==> (#[trigger] fs@[j]).id.is_position(j),
        decreases fs.len() - i,
    {
        if !labels_position(&fs[i].id, i) {
            assert(!fs@[i as int].id.is_position(i as int));
            return false;
        }
        i += 1;
    }
    true
}

/// Whether a type is a tuple: a record with at least one field in which the
/// label of the field at each position is the numeric label of that
/// position. A record with a declared name among its labels is a named
/// record, also where the hash of the name is the position.
pub fn is_tuple(t: &Type) -> (tuple: bool)
    ensures
        tuple == tuple_shaped(*t),
{
    match t {
        Type::Record(fs) => tuple_labels(fs),
        _ => false,
    }
}

/// Renders a list of mode flags as a JSON array of their tags.
pub fn print_modes(mo: &Vec<FuncMode>) -> (text: String)
    ensures
        text@ == rendered_modes(mo@),
{
    let mut text = String::new();
    text.append("[");
    let mut i: usize = 0;
    while i < mo.len()
        invariant
            i <= mo.len(),
            text@ == "["@ + joined_modes(mo@.subrange(0, i as int)),
        decreases mo.len() - i,
    {
        if i > 0 {
            text.append(",");
        }
        text.append("\"");
        text.append(mo[i].name());
        text.append("\"");
        proof {
            assert(mo@.subrange(0, i + 1).drop_last() =~= mo@.subrange(0, i as int));
            assert(text@ =~= "["@ + joined_modes(mo@.subrange(0, i + 1)));
        }
        i += 1;
    }
    text.append("]");
    proof {
        assert(mo@.subrange(0, mo.len() as int) =~= mo@);
    }
    text
}

/// Renders a list of types as a JSON array, in the given order.
pub fn print_array(ty: &Vec<Type>) -> (text: String)
    ensures
        text@ == rendered_array(ty@),
    decreases ty, 1nat,
{
    let mut text = String::new();
    text.append("[");
    let mut i: usize = 0;
    while i < ty.len()
        invariant
            i <= ty.len(),
            text@ == "["@ + joined_types(ty@.subrange(0, i as int)),
        decreases ty.len() - i,
    {
        if i > 0 {
            text.append(",");
        }
        let item = print_type(&ty[i]);
        text.append(item.as_str());
        proof {
            assert(ty@.subrange(0, i + 1).drop_last() =~= ty@.subrange(0, i as int));
            assert(text@ =~= "["@ + joined_types(ty@.subrange(0, i + 1)));
        }
        i += 1;
    }
    text.append("]");
    proof {
        assert(ty@.subrange(0, ty.len() as int) =~= ty@);
    }
    text
}

/// Renders the types of the fields as a JSON array, labels dropped.
fn print_field_types(fields: &Vec<Field>) -> (text: String)
    ensures
        text@ == "["@ + joined_field_types(fields@) + "]"@,
    decreases fields, 1nat,
{
    let mut text = String::new();
    text.append("[");
    let mut i: usize = 0;
    while i < fields.len()
        invariant
            i <= fields.len(),
            text@ == "["@ + joined_field_types(fields@.subrange(0, i as int)),
        decreases fields.len() - i,
    {
        if i > 0 {
            text.append(",");
        }
        let item = print_type(&fields[i].ty);
        text.append(item.as_str());
        proof {
            assert(fields@.subrange(0, i + 1).drop_last() =~= fields@.subrange(0, i as int));
            assert(text@ =~= "["@ + joined_field_types(fields@.subrange(0, i + 1)));
        }
        i += 1;
    }
    text.append("]");
    proof {
        assert(fields@.subrange(0, fields.len() as int) =~= fields@);
    }
    text
}

/// Renders named entries as object members, in the given order.
fn print_entries(methods: &Vec<(String, Type)>) -> (text: String)
    ensures
        text@ == joined_entries(methods@),
    decreases methods, 1nat,
{
    let mut text = String::new();
    let mut i: usize = 0;
    while i < methods.len()
        invariant
            i <= methods.len(),
            text@ == joined_entries(methods@.subrange(0, i as int)),
        decreases methods.len() - i,
    {
        if i > 0 {
            text.append(",");
        }
        let item = print_type(&methods[i].1);
        text.append("\"");
        text.append(methods[i].0.as_str());
        text.append("\": ");
        text.append(item.as_str());
        proof {
            let done = methods@.subrange(0, i + 1);
            assert(done.drop_last() =~= methods@.subrange(0, i as int));
            assert(rendered_entry(done.last()) =~= "\""@ + methods@[i as int].0@ + "\": "@
                + item@);
            assert(text@ =~= joined_entries(done));
        }
        i += 1;
    }
    proof {
        assert(methods@.subrange(0, methods.len() as int) =~= methods@);
    }
    text
}

/// `Display` of `candid::types::Type` on a primitive type: the keyword
/// that names the type in interface source text.
#[verifier::external_body]
fn primitive(ty: &Type) -> (keyword: String)
    requires
        is_primitive(*ty),
    ensures
        keyword@ == primitive_name(*ty),
{
    let outside = match ty {
        Type::Null => Checked::Null, Type::Bool => Checked::Bool,
        Type::Nat => Checked::Nat, Type::Int => Checked::Int,
        Type::Nat8 => Checked::Nat8, Type::Nat16 => Checked::Nat16,
        Type::Nat32 => Checked::Nat32, Type::Nat64 => Checked::Nat64,
        Type::Int8 => Checked::Int8, Type::Int16 => Checked::Int16,
        Type::Int32 => Checked::Int32, Type::Int64 => Checked::Int64,
        Type::Float32 => Checked::Float32, Type::Float64 => Checked::Float64,
        Type::Text => Checked::Text, Type::Principal => Checked::Principal,
        _ => Checked::Unknown,
    };
    outside.to_string()
}

/// Renders one type as a JSON fragment.
///
/// Every type has a text, so this cannot fail. The text of a class is not a
/// JSON value by itself: it is the inside of the actor object of a document.
pub fn print_type(ty: &Type) -> (text: String)
    ensures
        text@ == rendered_type(*ty),
    decreases ty, 0nat,
{
    let mut text = String::new();
    match ty {
        Type::Null => {
            let name = primitive(ty);
            text.append(name.as_str());
        },
        Type::Bool
        | Type::Nat
        | Type::Int
        | Type::Nat8
        | Type::Nat16
        | Type::Nat32
        | Type::Nat64
        | Type::Int8
        | Type::Int16
        | Type::Int32
        | Type::Int64
        | Type::Float32
        | Type::Float64
        | Type::Text
        | Type::Principal => {
            let name = primitive(ty);
            text.append("\"");
            text.append(name.as_str());
            text.append("\"");
        },
        Type::Opt(s) => {
            let inner = print_type(s);
            text.append("{ \"Opt\": ");
            text.append(inner.as_str());
            text.append(" }");
        },
        Type::Vec(s) => {
            let inner = print_type(s);
            text.append("{ \"Vec\": ");
            text.append(inner.as_str());
            text.append(" }");
        },
        Type::Var(s) => {
            text.append("{ \"Var\": \"");
            text.append(s.as_str());
            text.append("\" }");
        },
        Type::Record(r) => {
            if is_tuple(ty) {
                let items = print_field_types(r);
                text.append("{ \"Tuple\":");
                text.append(items.as_str());
                text.append("}");
            } else {
                let members = print_fields(r);
                text.append("{ \"Record\": { ");
                text.append(members.as_str());
                text.append(" } }");
            }
        },
        Type::Variant(r) => {
            let members = print_fields(r);
            text.append("{ \"Variant\": { ");
            text.append(members.as_str());
            text.append(" } }");
        },
        Type::Service(s) => {
            let members = print_entries(s);
            text.append("{ \"Service\": {");
            text.append(members.as_str());
            text.append("}}");
        },
        Type::Func(f) => {
            let args = print_array(&f.args);
            let rets = print_array(&f.rets);
            let modes = print_modes(&f.modes);
            text.append("{ \"Func\": { \"args\": ");
            text.append(args.as_str());
            text.append(", \"rets\": ");
            text.append(rets.as_str());
            text.append(", \"modes\": ");
            text.append(modes.as_str());
            text.append(" } }");
        },
        Type::Empty | Type::Reserved | Type::Unknown => {},
        Type::Knot(f) => {
            text.append("{ \"Knot\": ");
            text.append(f.name.as_str());
            text.append(" }");
        },
        Type::Class(args, b) => {
            let init = print_array(args);
            let spec = print_type(b);
            text.append("\"Init\": ");
            text.append(init.as_str());
            text.append(", \"Spec\": ");
            text.append(spec.as_str());
        },
    }
    proof {
        assert(text@ =~= rendered_type(*ty));
    }
    text
}

/// Renders fields as object members, in declaration order.
pub fn print_fields(fields: &Vec<Field>) -> (text: String)
    ensures
        text@ == rendered_fields(fields@),
    decreases fields, 1nat,
{
    let mut text = String::new();
    let mut i: usize = 0;
    while i < fields.len()
        invariant
            i <= fields.len(),
            text@ == rendered_fields(fields@.subrange(0, i as int)),
        decreases fields.len() - i,
    {
        if i > 0 {
            text.append(",");
        }
        let label = fields[i].id.to_text();
        let item = print_type(&fields[i].ty);
        text.append("\"");
        text.append(label.as_str());
        text.append("\": ");
        text.append(item.as_str());
        proof {
            let done = fields@.subrange(0, i + 1);
            assert(done.drop_last() =~= fields@.subrange(0, i as int));
            assert(rendered_field(done.last()) =~= "\""@ + label@ + "\": "@ + item@);
            assert(text@ =~= rendered_fields(done));
        }
        i += 1;
    }
    proof {
        assert(fields@.subrange(0, fields.len() as int) =~= fields@);
    }
    text
}

/// Renders the document of an interface: every definition of the
/// environment, in its order, and the actor.
pub fn compile(env: &TypeEnv, actor: &Option<Type>) -> (result: String)
    ensures
        result@ == rendered_document(env@, *actor),
{
    let mut result = String::new();
    let types = print_entries(env.entries());
    result.append("{ \"types\": {");
    result.append(types.as_str());
    result.append("}, \"actor\": {");
    match actor {
        None => {},
        Some(actor) => match actor {
            Type::Service(_) => {
                let spec = print_type(actor);
                result.append("\"Spec\": ");
                result.append(spec.as_str());
            },
            _ => {
                let other = print_type(actor);
                result.append(other.as_str());
            },
        },
    }
    result.append("}}");
    proof {
        assert(result@ =~= rendered_document(env@, *actor));
    }
    result
}

} // verus!
