//! What the actor of an interface is: nothing, a service, or a class that
//! constructs a service.
//!
//! Checking a raw type expression and validating that a type is a service
//! are the type checker's work. The rule here takes what it gave back for
//! each expression and settles the actor from it.

use vstd::prelude::*;
use crate::types::Type;

verus! {

/// An error of the type checker, with its own message.
#[derive(Debug, PartialEq, Eq)]
pub struct TypeError {
    pub message: String,
}

/// What the type checker gave back for an expression that has to be a
/// service.
#[derive(Debug, PartialEq, Eq)]
pub enum ServiceCheck {
    /// The expression did not check.
    Failed(TypeError),
    /// The expression checked to a type that is not a service.
    Rejected(TypeError),
    /// The expression checked to the type, which is a service.
    Accepted(Type),
}

/// The actor expression of a program. Each part holds what the type checker
/// gave back for it.
#[derive(Debug, PartialEq, Eq)]
pub enum ActorExpr {
    /// A class: its initialisation arguments in order, then its body.
    Class(Vec<Result<Type, TypeError>>, ServiceCheck),
    /// A single type expression.
    Plain(ServiceCheck),
}

/// Whether no argument before position `i` failed.
pub open spec fn checked_before(args: Seq<Result<Type, TypeError>>, i: int) -> bool {
    forall|j: int| 0 <= j < i ==> (#[trigger] args[j]).is_ok()
}

/// Whether the argument at position `i` is the first that failed.
pub open spec fn first_failure(args: Seq<Result<Type, TypeError>>, i: int) -> bool {
    &&& 0 <= i < args.len()
    &&& args[i].is_err()
    &&& checked_before(args, i)
}

/// Whether `types` holds the types of the arguments, one for one.
pub open spec fn types_of(args: Seq<Result<Type, TypeError>>, types: Seq<Type>) -> bool {
    &&& types.len() == args.len()
    &&& forall|j: int| 0 <= j < args.len() ==> (#[trigger] args[j]) == Ok::<Type, TypeError>(
        types[j],
    )
}

/// What a service check settles: the type where it is a service, else the
/// type checker's error.
pub open spec fn service_of(check: ServiceCheck) -> Result<Type, TypeError> {
    match check {
        ServiceCheck::Failed(e) => Err(e),
        ServiceCheck::Rejected(e) => Err(e),
        ServiceCheck::Accepted(ty) => Ok(ty),
    }
}

/// Whether `result` is what the actor expression resolves to.
///
/// No expression gives no actor. A class gives the error of its first
/// argument that failed; with all arguments checked, the error of its body;
/// else the class of the checked arguments and the body. A single
/// expression gives its error or its type. There is no partial result.
pub open spec fn resolves_to(actor: Option<ActorExpr>, result: Result<Option<Type>, TypeError>)
    -> bool {
    match actor {
        None => result == Ok::<Option<Type>, TypeError>(None),
        Some(ActorExpr::Class(args, body)) => {
            if checked_before(args@, args@.len() as int) {
                match service_of(body) {
                    Err(e) => result == Err::<Option<Type>, TypeError>(e),
                    Ok(service) => match result {
                        Ok(Some(Type::Class(init, spec))) => types_of(args@, init@) && *spec
                            == service,
                        _ => false,
                    },
                }
            } else {
                match result {
                    Err(e) => exists|i: int| first_failure(args@, i) && #[trigger] args@[i] == Err::<
                        Type,
                        TypeError,
                    >(e),
                    _ => false,
                }
            }
        },
        Some(ActorExpr::Plain(body)) => match service_of(body) {
            Err(e) => result == Err::<Option<Type>, TypeError>(e),
            Ok(service) => result == Ok::<Option<Type>, TypeError>(Some(service)),
        },
    }
}

/// Settles one service check.
fn accept(check: ServiceCheck) -> (result: Result<Type, TypeError>)
    ensures
        result == service_of(check),
{
    match check {
        ServiceCheck::Failed(e) => Err(e),
        ServiceCheck::Rejected(e) => Err(e),
        ServiceCheck::Accepted(ty) => Ok(ty),
    }
}

/// The types of the arguments where all of them checked, else the error of
/// the first that failed.
fn checked_args(ts: Vec<Result<Type, TypeError>>) -> (result: Result<Vec<Type>, TypeError>)
    ensures
        match result {
            Ok(types) => types_of(ts@, types@),
            Err(e) => exists|i: int| first_failure(ts@, i) && #[trigger] ts@[i] == Err::<
                Type,
                TypeError,
            >(e),
        },
{
    let ghost all = ts@;
    let mut rest = ts;
    let mut args: Vec<Type> = Vec::new();
    while rest.len() > 0
        invariant
            all == ts@,
            args@.len() + rest@.len() == all.len(),
            rest@ =~= all.subrange(args@.len() as int, all.len() as int),
            types_of(all.subrange(0, args@.len() as int), args@),
        decreases rest.len(),
    {
        let ghost k = args@.len() as int;
        let arg = rest.remove(0);
        assert(arg == all[k]);
        match arg {
            Err(e) => {
                proof {
                    assert forall|j: int| 0 <= j < k implies (#[trigger] all[j]).is_ok() by {
                        assert(all.subrange(0, k)[j] == all[j]);
                    }
                    assert(first_failure(all, k));
                }
                return Err(e);
            },
            Ok(ty) => {
                args.push(ty);
                proof {
                    assert forall|j: int| 0 <= j < k + 1 implies (#[trigger] all.subrange(
                        0,
                        k + 1,
                    )[j]) == Ok::<Type, TypeError>(args@[j]) by {
                        if j < k {
                            assert(all.subrange(0, k)[j] == all[j]);
                        }
                    }
                }
            },
        }
    }
    proof {
        assert(all.subrange(0, all.len() as int) =~= all);
    }
    Ok(args)
}

/// Resolves the actor of a program from what the type checker gave back for the
/// parts of its actor expression.
pub fn check_actor(actor: Option<ActorExpr>) -> (result: Result<Option<Type>, TypeError>)
    ensures
        resolves_to(actor, result),
{
    match actor {
        None => Ok(None),
        Some(ActorExpr::Class(ts, t)) => {
            let ghost all = ts@;
            match checked_args(ts) {
                Err(e) => {
                    proof {
                        let i = choose|i: int| first_failure(all, i) && #[trigger] all[i] == Err::<
                            Type,
                            TypeError,
                        >(e);
                        assert(all[i].is_err());
                        assert(!checked_before(all, all.len() as int));
                    }
                    Err(e)
                },
                Ok(args) => {
                    assert(checked_before(all, all.len() as int));
                    match accept(t) {
                        Err(e) => Err(e),
                        Ok(serv) => Ok(Some(Type::Class(args, Box::new(serv)))),
                    }
                },
            }
        },
        Some(ActorExpr::Plain(typ)) => {
            match accept(typ) {
                Err(e) => Err(e),
                Ok(t) => Ok(Some(t)),
            }
        },
    }
}

} // verus!
