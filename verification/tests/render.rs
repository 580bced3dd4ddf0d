use candid_json::env::TypeEnv;
use candid_json::target_json::{
    compile, is_tuple, print_array, print_fields, print_modes, print_type,
};
use candid_json::types::{Field, FuncMode, Function, Label, Type, TypeId};

/// The text without the blanks that stand outside of quoted strings.
fn compact(text: &str) -> String {
    let mut out = String::new();
    let mut quoted = false;
    for c in text.chars() {
        if c == '"' {
            quoted = !quoted;
        }
        if quoted || c != ' ' {
            out.push(c);
        }
    }
    out
}

fn field(id: Label, ty: Type) -> Field {
    Field { id, ty }
}

fn named(name: &str, ty: Type) -> Field {
    field(Label::Named(name.to_string()), ty)
}

fn func(args: Vec<Type>, rets: Vec<Type>, modes: Vec<FuncMode>) -> Type {
    Type::Func(Function { modes, args, rets })
}

fn result_variant() -> Type {
    Type::Variant(vec![
        field(Label::Id(0), Type::Nat32),
        field(Label::Id(1), Type::Text),
    ])
}

fn one_method_service() -> Type {
    Type::Service(vec![(
        "f".to_string(),
        func(vec![], vec![Type::Var("Result".to_string())], vec![FuncMode::Query]),
    )])
}

fn outer_key(fragment: &str) -> String {
    let value: serde_json::Value = serde_json::from_str(fragment).unwrap();
    let object = value.as_object().unwrap();
    assert_eq!(object.len(), 1);
    object.keys().next().unwrap().clone()
}

#[test]
fn positional_record_is_tuple() {
    let t = Type::Record(vec![
        field(Label::Id(0), Type::Nat),
        field(Label::Id(1), Type::Text),
        field(Label::Unnamed(2), Type::Bool),
    ]);
    assert!(is_tuple(&t));
    let single = Type::Record(vec![field(Label::Unnamed(0), Type::Nat)]);
    assert!(is_tuple(&single));
}

#[test]
fn empty_record_is_not_tuple() {
    assert!(!is_tuple(&Type::Record(vec![])));
}

#[test]
fn out_of_order_record_is_not_tuple() {
    let swapped = Type::Record(vec![
        field(Label::Id(1), Type::Nat),
        field(Label::Id(0), Type::Text),
    ]);
    assert!(!is_tuple(&swapped));
    let gap = Type::Record(vec![
        field(Label::Id(0), Type::Nat),
        field(Label::Id(2), Type::Text),
    ]);
    assert!(!is_tuple(&gap));
    let from_one = Type::Record(vec![field(Label::Id(1), Type::Nat)]);
    assert!(!is_tuple(&from_one));
}

#[test]
fn only_records_are_tuples() {
    assert!(!is_tuple(&Type::Variant(vec![field(Label::Id(0), Type::Nat)])));
    assert!(!is_tuple(&Type::Nat));
    assert!(!is_tuple(&Type::Opt(Box::new(Type::Record(vec![field(
        Label::Id(0),
        Type::Nat
    )])))));
}

#[test]
fn name_that_hashes_to_its_position_is_not_tuple() {
    // the empty name hashes to 0
    let empty = Label::Named(String::new());
    assert_eq!(empty.get_id(), 0);
    let t = Type::Record(vec![field(empty, Type::Nat)]);
    assert!(!is_tuple(&t));
    assert_eq!(print_type(&t), "{ \"Record\": { \"\": \"nat\" } }");
    assert_eq!(outer_key(&print_type(&t)), "Record");

    // a name of one byte hashes to that byte
    let one = Label::Named("\u{1}".to_string());
    assert_eq!(one.get_id(), 1);
    let second = Type::Record(vec![field(Label::Id(0), Type::Nat), field(one, Type::Text)]);
    assert!(!is_tuple(&second));
    assert!(print_type(&second).starts_with("{ \"Record\": { \"0\": \"nat\","));

    let first = Type::Record(vec![
        field(Label::Named("\u{0}".to_string()), Type::Nat),
        field(Label::Unnamed(1), Type::Text),
    ]);
    assert!(!is_tuple(&first));
}

#[test]
fn named_record_is_not_tuple() {
    let t = Type::Record(vec![named("x", Type::Nat), named("y", Type::Nat)]);
    assert!(!is_tuple(&t));
    assert_eq!(print_type(&t), "{ \"Record\": { \"x\": \"nat\",\"y\": \"nat\" } }");
    assert_eq!(compact(&print_type(&t)), "{\"Record\":{\"x\":\"nat\",\"y\":\"nat\"}}");
    assert_eq!(outer_key(&print_type(&t)), "Record");
}

#[test]
fn label_hash_of_names() {
    assert_eq!(Label::Named("x".to_string()).get_id(), 120);
    assert_eq!(Label::Named("Ok".to_string()).get_id(), 17724);
    assert_eq!(Label::Named("Err".to_string()).get_id(), 3456837);
    assert_eq!(Label::Named(String::new()).get_id(), 0);
    // two bytes in UTF-8: 0xC3 0xA9
    assert_eq!(Label::Named("\u{e9}".to_string()).get_id(), 195 * 223 + 169);
    assert_eq!(Label::Id(7).get_id(), 7);
    assert_eq!(Label::Unnamed(9).get_id(), 9);
    // 223^4 * 'a' and the rest wrap round 2^32
    assert_eq!(
        Label::Named("aaaaa".to_string()).get_id(),
        (((((97u64 * 223 + 97) * 223 + 97) * 223 + 97) * 223 + 97) % 4294967296) as u32
    );
}

#[test]
fn label_texts() {
    assert_eq!(Label::Id(0).to_text(), "0");
    assert_eq!(Label::Id(999).to_text(), "999");
    assert_eq!(Label::Id(1000).to_text(), "1_000");
    assert_eq!(Label::Unnamed(1234567).to_text(), "1_234_567");
    assert_eq!(Label::Id(1002003).to_text(), "1_002_003");
    assert_eq!(Label::Id(4294967295).to_text(), "4_294_967_295");
    assert_eq!(Label::Named("owner".to_string()).to_text(), "owner");
}

#[test]
fn primitives_render_as_quoted_names() {
    assert_eq!(print_type(&Type::Bool), "\"bool\"");
    assert_eq!(print_type(&Type::Nat), "\"nat\"");
    assert_eq!(print_type(&Type::Int), "\"int\"");
    assert_eq!(print_type(&Type::Nat8), "\"nat8\"");
    assert_eq!(print_type(&Type::Nat16), "\"nat16\"");
    assert_eq!(print_type(&Type::Nat32), "\"nat32\"");
    assert_eq!(print_type(&Type::Nat64), "\"nat64\"");
    assert_eq!(print_type(&Type::Int8), "\"int8\"");
    assert_eq!(print_type(&Type::Int16), "\"int16\"");
    assert_eq!(print_type(&Type::Int32), "\"int32\"");
    assert_eq!(print_type(&Type::Int64), "\"int64\"");
    assert_eq!(print_type(&Type::Float32), "\"float32\"");
    assert_eq!(print_type(&Type::Float64), "\"float64\"");
    assert_eq!(print_type(&Type::Text), "\"text\"");
    assert_eq!(print_type(&Type::Principal), "\"principal\"");
}

#[test]
fn null_renders_bare() {
    assert_eq!(print_type(&Type::Null), "null");
}

#[test]
fn types_without_content_render_as_nothing() {
    assert_eq!(print_type(&Type::Empty), "");
    assert_eq!(print_type(&Type::Reserved), "");
    assert_eq!(print_type(&Type::Unknown), "");
    assert_eq!(print_type(&Type::Opt(Box::new(Type::Empty))), "{ \"Opt\":  }");
}

#[test]
fn wrappers_render_under_their_key() {
    let opt = Type::Opt(Box::new(Type::Vec(Box::new(Type::Nat8))));
    assert_eq!(print_type(&opt), "{ \"Opt\": { \"Vec\": \"nat8\" } }");
    assert_eq!(outer_key(&print_type(&opt)), "Opt");
    let vec = Type::Vec(Box::new(Type::Text));
    assert_eq!(print_type(&vec), "{ \"Vec\": \"text\" }");
    assert_eq!(outer_key(&print_type(&vec)), "Vec");
}

#[test]
fn var_renders_by_name() {
    let var = Type::Var("List".to_string());
    assert_eq!(print_type(&var), "{ \"Var\": \"List\" }");
    assert_eq!(outer_key(&print_type(&var)), "Var");
}

#[test]
fn knot_renders_its_token_bare() {
    let knot = Type::Knot(TypeId { name: "List".to_string() });
    assert_eq!(print_type(&knot), "{ \"Knot\": List }");
    let numbered = Type::Knot(TypeId { name: "7".to_string() });
    assert_eq!(print_type(&numbered), "{ \"Knot\": 7 }");
    assert_eq!(outer_key(&print_type(&numbered)), "Knot");
}

#[test]
fn tuple_renders_as_array_without_labels() {
    let t = Type::Record(vec![
        field(Label::Unnamed(0), Type::Vec(Box::new(Type::Nat8))),
        field(Label::Unnamed(1), Type::Text),
    ]);
    assert_eq!(print_type(&t), "{ \"Tuple\":[{ \"Vec\": \"nat8\" },\"text\"]}");
    assert_eq!(outer_key(&print_type(&t)), "Tuple");
}

#[test]
fn record_with_numeric_labels_out_of_place() {
    let t = Type::Record(vec![
        field(Label::Id(5), Type::Nat),
        field(Label::Id(1000), Type::Text),
    ]);
    assert_eq!(print_type(&t), "{ \"Record\": { \"5\": \"nat\",\"1_000\": \"text\" } }");
}

#[test]
fn empty_record_renders_as_record() {
    assert_eq!(print_type(&Type::Record(vec![])), "{ \"Record\": {  } }");
    assert_eq!(outer_key(&print_type(&Type::Record(vec![]))), "Record");
}

#[test]
fn variant_renders_labels_in_order() {
    let t = Type::Variant(vec![named("Ok", Type::Nat32), named("Err", Type::Text)]);
    assert_eq!(print_type(&t), "{ \"Variant\": { \"Ok\": \"nat32\",\"Err\": \"text\" } }");
    assert_eq!(outer_key(&print_type(&t)), "Variant");
    // a variant is never a tuple, whatever its labels
    assert_eq!(
        print_type(&result_variant()),
        "{ \"Variant\": { \"0\": \"nat32\",\"1\": \"text\" } }"
    );
}

#[test]
fn func_keeps_argument_order() {
    let f = func(vec![Type::Nat, Type::Text], vec![], vec![]);
    assert_eq!(
        print_type(&f),
        "{ \"Func\": { \"args\": [\"nat\",\"text\"], \"rets\": [], \"modes\": [] } }"
    );
    assert_eq!(print_array(&vec![Type::Nat, Type::Text]), "[\"nat\",\"text\"]");
    assert_eq!(print_array(&vec![Type::Text, Type::Nat]), "[\"text\",\"nat\"]");
    assert_eq!(outer_key(&print_type(&f)), "Func");
    let value: serde_json::Value = serde_json::from_str(&print_type(&f)).unwrap();
    assert_eq!(value["Func"]["args"][0], "nat");
    assert_eq!(value["Func"]["args"][1], "text");
}

#[test]
fn func_renders_rets_and_modes() {
    let f = func(
        vec![Type::Principal],
        vec![Type::Nat64, Type::Bool],
        vec![FuncMode::Oneway, FuncMode::Query],
    );
    assert_eq!(
        print_type(&f),
        "{ \"Func\": { \"args\": [\"principal\"], \"rets\": [\"nat64\",\"bool\"], \"modes\": [\"Oneway\",\"Query\"] } }"
    );
}

#[test]
fn arrays_and_mode_lists() {
    assert_eq!(print_array(&vec![]), "[]");
    assert_eq!(print_array(&vec![Type::Nat]), "[\"nat\"]");
    assert_eq!(print_modes(&vec![]), "[]");
    assert_eq!(print_modes(&vec![FuncMode::Query]), "[\"Query\"]");
    assert_eq!(print_modes(&vec![FuncMode::Oneway]), "[\"Oneway\"]");
    assert_eq!(
        print_modes(&vec![FuncMode::Query, FuncMode::Oneway]),
        "[\"Query\",\"Oneway\"]"
    );
    assert_eq!(print_modes(&vec![FuncMode::CompositeQuery]), "[\"CompositeQuery\"]");
    assert_eq!(FuncMode::CompositeQuery.name(), "CompositeQuery");
    assert_eq!(FuncMode::Query.name(), "Query");
    assert_eq!(FuncMode::Oneway.name(), "Oneway");
}

#[test]
fn fields_render_as_members() {
    assert_eq!(print_fields(&vec![]), "");
    assert_eq!(print_fields(&vec![named("a", Type::Nat)]), "\"a\": \"nat\"");
    assert_eq!(
        print_fields(&vec![
            named("b", Type::Nat),
            field(Label::Id(3), Type::Null),
            named("a", Type::Text)
        ]),
        "\"b\": \"nat\",\"3\": null,\"a\": \"text\""
    );
}

#[test]
fn service_renders_methods_in_order() {
    let s = Type::Service(vec![
        ("zeta".to_string(), func(vec![], vec![], vec![])),
        ("alpha".to_string(), func(vec![Type::Nat], vec![], vec![FuncMode::Oneway])),
    ]);
    assert_eq!(
        print_type(&s),
        "{ \"Service\": {\"zeta\": { \"Func\": { \"args\": [], \"rets\": [], \"modes\": [] } },\"alpha\": { \"Func\": { \"args\": [\"nat\"], \"rets\": [], \"modes\": [\"Oneway\"] } }}}"
    );
    assert_eq!(outer_key(&print_type(&s)), "Service");
    assert_eq!(print_type(&Type::Service(vec![])), "{ \"Service\": {}}");
}

#[test]
fn class_renders_two_members() {
    let c = Type::Class(vec![Type::Principal, Type::Nat], Box::new(Type::Service(vec![])));
    assert_eq!(
        print_type(&c),
        "\"Init\": [\"principal\",\"nat\"], \"Spec\": { \"Service\": {}}"
    );
}

#[test]
fn rendering_twice_gives_the_same_text() {
    let t = Type::Record(vec![
        named("self", Type::Opt(Box::new(Type::Var("Node".to_string())))),
        named("items", Type::Vec(Box::new(result_variant()))),
        named("call", one_method_service()),
    ]);
    let first = print_type(&t);
    let second = print_type(&t);
    assert_eq!(first, second);
    assert_eq!(first.as_bytes(), second.as_bytes());
}

#[test]
fn recursive_definition_is_not_unfolded() {
    let mut env = TypeEnv::new();
    env.insert(
        "List".to_string(),
        Type::Opt(Box::new(Type::Record(vec![
            named("head", Type::Int),
            named("tail", Type::Var("List".to_string())),
        ]))),
    );
    assert_eq!(
        compile(&env, &None),
        "{ \"types\": {\"List\": { \"Opt\": { \"Record\": { \"head\": \"int\",\"tail\": { \"Var\": \"List\" } } } }}, \"actor\": {}}"
    );
}

#[test]
fn absent_actor_gives_empty_object() {
    let env = TypeEnv::new();
    assert_eq!(compile(&env, &None), "{ \"types\": {}, \"actor\": {}}");
    assert_eq!(compact(&compile(&env, &None)), "{\"types\":{},\"actor\":{}}");

    let mut env = TypeEnv::new();
    env.insert("Result".to_string(), result_variant());
    env.insert("Id".to_string(), Type::Principal);
    let text = compile(&env, &None);
    assert_eq!(
        text,
        "{ \"types\": {\"Result\": { \"Variant\": { \"0\": \"nat32\",\"1\": \"text\" } },\"Id\": \"principal\"}, \"actor\": {}}"
    );
    assert!(text.ends_with(", \"actor\": {}}"));
    let value: serde_json::Value = serde_json::from_str(&text).unwrap();
    let actor = value["actor"].as_object().unwrap();
    assert!(actor.is_empty());
    assert!(!actor.contains_key("Spec"));
    assert!(!actor.contains_key("Init"));
}

#[test]
fn service_actor_document() {
    let mut env = TypeEnv::new();
    env.insert("Result".to_string(), result_variant());
    let text = compile(&env, &Some(one_method_service()));
    assert_eq!(
        text,
        "{ \"types\": {\"Result\": { \"Variant\": { \"0\": \"nat32\",\"1\": \"text\" } }}, \"actor\": {\"Spec\": { \"Service\": {\"f\": { \"Func\": { \"args\": [], \"rets\": [{ \"Var\": \"Result\" }], \"modes\": [\"Query\"] } }}}}}"
    );
    assert_eq!(
        compact(&text),
        "{\"types\":{\"Result\":{\"Variant\":{\"0\":\"nat32\",\"1\":\"text\"}}},\"actor\":{\"Spec\":{\"Service\":{\"f\":{\"Func\":{\"args\":[],\"rets\":[{\"Var\":\"Result\"}],\"modes\":[\"Query\"]}}}}}}"
    );
    let value: serde_json::Value = serde_json::from_str(&text).unwrap();
    assert_eq!(value["actor"]["Spec"]["Service"]["f"]["Func"]["modes"][0], "Query");
    assert_eq!(value["types"]["Result"]["Variant"]["1"], "text");
}

#[test]
fn class_actor_document() {
    let env = TypeEnv::new();
    let actor = Type::Class(vec![Type::Principal], Box::new(one_method_service()));
    let text = compile(&env, &Some(actor));
    assert_eq!(
        text,
        "{ \"types\": {}, \"actor\": {\"Init\": [\"principal\"], \"Spec\": { \"Service\": {\"f\": { \"Func\": { \"args\": [], \"rets\": [{ \"Var\": \"Result\" }], \"modes\": [\"Query\"] } }}}}}"
    );
    assert!(compact(&text).starts_with(
        "{\"types\":{},\"actor\":{\"Init\":[\"principal\"],\"Spec\":{\"Service\":{"
    ));
    let value: serde_json::Value = serde_json::from_str(&text).unwrap();
    let actor = value["actor"].as_object().unwrap();
    assert_eq!(actor.len(), 2);
    assert_eq!(actor["Init"][0], "principal");
    assert!(actor["Spec"]["Service"].is_object());
}

#[test]
fn other_actor_is_written_without_key() {
    let env = TypeEnv::new();
    assert_eq!(
        compile(&env, &Some(Type::Var("S".to_string()))),
        "{ \"types\": {}, \"actor\": {{ \"Var\": \"S\" }}}"
    );
    assert_eq!(
        compile(&env, &Some(Type::Nat)),
        "{ \"types\": {}, \"actor\": {\"nat\"}}"
    );
}
