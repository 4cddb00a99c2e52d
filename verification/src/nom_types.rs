use vstd::prelude::*;

verus! {

/// `nom::Err` is the failure side of every `nom::IResult`. The recorder
/// only observes that a failure occurred and passes the value through
/// unchanged, so the type is declared opaque.
#[verifier::external_type_specification]
#[verifier::external_body]
#[verifier::reject_recursive_types(E)]
pub struct ExErr<E>(nom::Err<E>);

/// `nom::error::Error` is nom's default error payload, carried inside
/// `nom::Err` by `nom::IResult`'s default type parameter. The recorder
/// never looks inside it.
#[verifier::external_type_specification]
#[verifier::external_body]
#[verifier::reject_recursive_types(I)]
pub struct ExError<I>(nom::error::Error<I>);

} // verus!
