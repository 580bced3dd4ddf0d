use candid_json::actor::{check_actor, ActorExpr, ServiceCheck, TypeError};
use candid_json::env::TypeEnv;
use candid_json::ledger::{ICPTs, Operation, Property, SendArgs, TimeStamp};
use candid_json::types::Type;

fn error(message: &str) -> TypeError {
    TypeError { message: message.to_string() }
}

fn service() -> Type {
    Type::Service(vec![])
}

#[test]
fn absent_actor_resolves_to_none() {
    assert_eq!(check_actor(None), Ok(None));
}

#[test]
fn plain_service_resolves_to_itself() {
    let actor = ActorExpr::Plain(ServiceCheck::Accepted(service()));
    assert_eq!(check_actor(Some(actor)), Ok(Some(service())));
    let by_name = ActorExpr::Plain(ServiceCheck::Accepted(Type::Var("S".to_string())));
    assert_eq!(check_actor(Some(by_name)), Ok(Some(Type::Var("S".to_string()))));
}

#[test]
fn plain_expression_that_fails_gives_its_error() {
    let actor = ActorExpr::Plain(ServiceCheck::Failed(error("Unbound type identifier S")));
    assert_eq!(check_actor(Some(actor)), Err(error("Unbound type identifier S")));
}

#[test]
fn plain_expression_that_is_no_service_gives_the_error() {
    let actor = ActorExpr::Plain(ServiceCheck::Rejected(error("not a service type: nat")));
    assert_eq!(check_actor(Some(actor)), Err(error("not a service type: nat")));
}

#[test]
fn class_resolves_to_class_of_checked_parts() {
    let actor = ActorExpr::Class(
        vec![Ok(Type::Principal), Ok(Type::Nat)],
        ServiceCheck::Accepted(service()),
    );
    assert_eq!(
        check_actor(Some(actor)),
        Ok(Some(Type::Class(vec![Type::Principal, Type::Nat], Box::new(service()))))
    );
    let no_args = ActorExpr::Class(vec![], ServiceCheck::Accepted(service()));
    assert_eq!(
        check_actor(Some(no_args)),
        Ok(Some(Type::Class(vec![], Box::new(service()))))
    );
}

#[test]
fn class_gives_error_of_first_failed_argument() {
    let actor = ActorExpr::Class(
        vec![Ok(Type::Nat), Err(error("first")), Ok(Type::Text), Err(error("second"))],
        ServiceCheck::Failed(error("body")),
    );
    assert_eq!(check_actor(Some(actor)), Err(error("first")));
    let at_start = ActorExpr::Class(
        vec![Err(error("zero")), Ok(Type::Nat)],
        ServiceCheck::Accepted(service()),
    );
    assert_eq!(check_actor(Some(at_start)), Err(error("zero")));
}

#[test]
fn class_gives_error_of_body() {
    let failed = ActorExpr::Class(vec![Ok(Type::Nat)], ServiceCheck::Failed(error("body")));
    assert_eq!(check_actor(Some(failed)), Err(error("body")));
    let rejected = ActorExpr::Class(
        vec![Ok(Type::Nat)],
        ServiceCheck::Rejected(error("not a service type: text")),
    );
    assert_eq!(check_actor(Some(rejected)), Err(error("not a service type: text")));
}

#[test]
fn environment_keeps_order_and_names_once() {
    let mut env = TypeEnv::new();
    assert_eq!(env.len(), 0);
    assert_eq!(env.insert("b".to_string(), Type::Nat), None);
    assert_eq!(env.insert("a".to_string(), Type::Text), None);
    assert_eq!(env.insert("c".to_string(), Type::Bool), None);
    assert_eq!(env.len(), 3);
    assert_eq!(env.insert("a".to_string(), Type::Int), Some(Type::Text));
    assert_eq!(env.len(), 3);
    let names: Vec<&str> = env.entries().iter().map(|e| e.0.as_str()).collect();
    assert_eq!(names, vec!["b", "a", "c"]);
    assert_eq!(env.entries()[1].1, Type::Int);
    assert_eq!(env.find_type("a"), Some(&Type::Int));
    assert_eq!(env.find_type("c"), Some(&Type::Bool));
    assert_eq!(env.find_type("d"), None);
}

#[test]
fn default_operation_is_init() {
    assert_eq!(Operation::default(), Operation::init);
}

#[test]
fn ledger_values_hold_their_fields() {
    let args = SendArgs {
        memo: 1,
        amount: ICPTs { e8s: 100_000_000 },
        fee: ICPTs { e8s: 10_000 },
        from_subaccount: None,
        to: "account".to_string(),
        created_at_time: Some(TimeStamp { timestamp_nanos: 5 }),
    };
    assert_eq!(args.amount.e8s, 100_000_000);
    assert_eq!(args.created_at_time, Some(TimeStamp { timestamp_nanos: 5 }));
    let p = Property { name: "n".to_string(), value: "v".to_string() };
    assert_eq!(p.clone(), p);
}
