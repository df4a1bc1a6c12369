//! The failure types, their domains, and the embeddings between them.
//!
//! A library picks one concrete failure type `F` for its fallible operations
//! and marks it [`Concrete`]. Each operation then fails with `F`, or with
//! [`Never`] where it cannot fail, and [`CoercibleWith`] gives the type that
//! a composition of two operations fails with: the join of their domains.

use crate::domain::{join, Domain};
use crate::never::Never;
use vstd::prelude::*;

verus! {

/// Marks a type as the concrete failure type of a library.
pub trait Concrete: Sized {}

/// A failure type of a library whose concrete failure type is `F`: either
/// [`Never`] or `F` itself.
pub trait Failure<F>: Sized {
    /// The domain that this type stands for.
    spec fn domain() -> Domain;

    /// The concrete failure that a failure of this type embeds as.
    spec fn widened(self) -> F;

    /// The domain that this type stands for.
    fn domain_tag() -> (tag: Domain)
        ensures
            tag == Self::domain(),
    ;

    /// Embeds a failure into the concrete failure type.
    fn widen(self) -> (wide: F)
        ensures
            wide == self.widened(),
    ;
}

impl<F> Failure<F> for Never {
    open spec fn domain() -> Domain {
        Domain::NoFailure
    }

    /// No value of `Never` exists, so it does not matter which failure this is.
    open spec fn widened(self) -> F {
        arbitrary()
    }

    fn domain_tag() -> (tag: Domain) {
        Domain::NoFailure
    }

    fn widen(self) -> (wide: F) {
        self.absurd()
    }
}

impl<F: Concrete> Failure<F> for F {
    open spec fn domain() -> Domain {
        Domain::ConcreteFailure
    }

    open spec fn widened(self) -> F {
        self
    }

    fn domain_tag() -> (tag: Domain) {
        Domain::ConcreteFailure
    }

    fn widen(self) -> (wide: F) {
        self
    }
}

/// A trait used to determine how to best coerce two failure types of a
/// library whose concrete failure type is `F`: `Into` is the type of the join
/// of their domains.
pub trait CoercibleWith<E: Failure<F>, F>: Failure<F> {
    /// The type that both `Self` and `E` embed into.
    type Into: Failure<F>;

    /// The domain of `Into` is the join of the domains of `Self` and `E`.
    proof fn lemma_into_is_join()
        ensures
            <Self::Into as Failure<F>>::domain() == join(
                <Self as Failure<F>>::domain(),
                <E as Failure<F>>::domain(),
            ),
    ;

    /// The failure of the joined type that a failure of this type embeds as:
    /// the failure itself where the joined type is this type.
    spec fn embedded(self) -> Self::Into;

    /// The failure of the joined type that a failure of the other type embeds
    /// as: the failure itself where the joined type is the other type.
    spec fn embedded_other(other: E) -> Self::Into;

    /// Embeds a failure of this type into the joined type. The embedding
    /// loses nothing: the failure widens to what it widened to before.
    fn embed(self) -> (wider: Self::Into)
        ensures
            wider == self.embedded(),
            wider.widened() == self.widened(),
    ;

    /// Embeds a failure of the other type into the joined type. The embedding
    /// loses nothing: the failure widens to what it widened to before.
    fn embed_other(other: E) -> (wider: Self::Into)
        ensures
            wider == Self::embedded_other(other),
            wider.widened() == other.widened(),
    ;
}

impl<F: Concrete> CoercibleWith<F, F> for F {
    type Into = F;

    proof fn lemma_into_is_join() {
    }

    open spec fn embedded(self) -> F {
        self
    }

    open spec fn embedded_other(other: F) -> F {
        other
    }

    fn embed(self) -> (wider: F) {
        self
    }

    fn embed_other(other: F) -> (wider: F) {
        other
    }
}

impl<F: Concrete> CoercibleWith<Never, F> for F {
    type Into = F;

    proof fn lemma_into_is_join() {
    }

    open spec fn embedded(self) -> F {
        self
    }

    /// No value of `Never` exists, so this embeds no failure.
    open spec fn embedded_other(other: Never) -> F {
        other.widened()
    }

    fn embed(self) -> (wider: F) {
        self
    }

    fn embed_other(other: Never) -> (wider: F) {
        other.widen()
    }
}

impl<F: Concrete> CoercibleWith<F, F> for Never {
    type Into = F;

    proof fn lemma_into_is_join() {
    }

    /// No value of `Never` exists, so this embeds no failure.
    open spec fn embedded(self) -> F {
        self.widened()
    }

    open spec fn embedded_other(other: F) -> F {
        other
    }

    fn embed(self) -> (wider: F) {
        self.widen()
    }

    fn embed_other(other: F) -> (wider: F) {
        other
    }
}

impl<F> CoercibleWith<Never, F> for Never {
    type Into = Never;

    proof fn lemma_into_is_join() {
    }

    /// Within the domain of no failure the embedding is the identity.
    open spec fn embedded(self) -> Never {
        self
    }

    /// Within the domain of no failure the embedding is the identity.
    open spec fn embedded_other(other: Never) -> Never {
        other
    }

    fn embed(self) -> (wider: Never) {
        self
    }

    fn embed_other(other: Never) -> (wider: Never) {
        other
    }
}

/// A shortcut for building the coerced failure type, given two failure types
/// and the concrete failure type of the library.
pub type CoercedError<E1, E2, F> = <E1 as CoercibleWith<E2, F>>::Into;

/// A shortcut for building the coerced result type, given one value type, two
/// failure types and the concrete failure type of the library.
pub type CoercedResult<T, E1, E2, F> = Result<T, CoercedError<E1, E2, F>>;

/// Two results agree: both succeed with the same value, or both fail with
/// the same failure.
pub open spec fn same_outcome<T, E1: Failure<F>, E2: Failure<F>, F>(
    left: Result<T, E1>,
    right: Result<T, E2>,
) -> bool {
    match (left, right) {
        (Ok(a), Ok(b)) => a == b,
        (Err(e), Err(f)) => e.widened() == f.widened(),
        _ => false,
    }
}

/// Lifts a result of the first of two domains into their join.
pub fn lift<T, E1: CoercibleWith<E2, F>, E2: Failure<F>, F>(result: Result<T, E1>) -> (lifted:
    CoercedResult<T, E1, E2, F>)
    ensures
        same_outcome::<T, CoercedError<E1, E2, F>, E1, F>(lifted, result),
{
    match result {
        Ok(value) => Ok(value),
        Err(error) => Err(<E1 as CoercibleWith<E2, F>>::embed(error)),
    }
}

/// Lifts a result of the second of two domains into their join.
pub fn lift_other<T, E1: CoercibleWith<E2, F>, E2: Failure<F>, F>(result: Result<T, E2>) -> (lifted:
    CoercedResult<T, E1, E2, F>)
    ensures
        same_outcome::<T, CoercedError<E1, E2, F>, E2, F>(lifted, result),
{
    match result {
        Ok(value) => Ok(value),
        Err(error) => Err(<E1 as CoercibleWith<E2, F>>::embed_other(error)),
    }
}

/// Lifting within the concrete domain is the identity: a result that agrees
/// with a result of the same concrete failure type is that result.
pub proof fn lemma_lift_within_concrete_domain<T, F: Concrete>(
    result: Result<T, F>,
    lifted: Result<T, F>,
)
    requires
        same_outcome::<T, F, F, F>(lifted, result),
    ensures
        lifted == result,
{
}

/// Lifting keeps success and failure apart: the lifted result succeeds
/// exactly where the result did.
pub proof fn lemma_lift_keeps_success<T, E1: Failure<F>, E2: Failure<F>, F>(
    result: Result<T, E1>,
    lifted: Result<T, E2>,
)
    requires
        same_outcome::<T, E2, E1, F>(lifted, result),
    ensures
        lifted is Ok <==> result is Ok,
        lifted is Ok ==> lifted->Ok_0 == result->Ok_0,
{
}

/// The domain of the join of two failure types.
pub fn joined_domain<E1: CoercibleWith<E2, F>, E2: Failure<F>, F>() -> (tag: Domain)
    ensures
        tag == join(<E1 as Failure<F>>::domain(), <E2 as Failure<F>>::domain()),
{
    proof {
        <E1 as CoercibleWith<E2, F>>::lemma_into_is_join();
    }
    <CoercedError<E1, E2, F> as Failure<F>>::domain_tag()
}

} // verus!
