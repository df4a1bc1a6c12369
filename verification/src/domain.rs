//! The lattice of failure domains.
//!
//! A failure domain says whether an operation can fail at all. There are
//! exactly two: [`Domain::NoFailure`], the bottom of the lattice, and
//! [`Domain::ConcreteFailure`], its top. Composing two operations yields an
//! operation whose domain is the join of theirs.

use vstd::prelude::*;

verus! {

/// A failure domain.
#[derive(Clone, Copy, Debug, PartialEq, Eq, Structural)]
pub enum Domain {
    /// The operation is statically known to succeed.
    NoFailure,
    /// The operation may fail, and then carries a failure value.
    ConcreteFailure,
}

/// The least domain into which both `d1` and `d2` embed.
pub open spec fn join(d1: Domain, d2: Domain) -> Domain {
    if d1 == Domain::NoFailure && d2 == Domain::NoFailure {
        Domain::NoFailure
    } else {
        Domain::ConcreteFailure
    }
}

/// `d1` embeds into `d2`: every failure of `d1` is also a failure of `d2`.
pub open spec fn embeds(d1: Domain, d2: Domain) -> bool {
    d1 == Domain::NoFailure || d2 == Domain::ConcreteFailure
}

impl Domain {
    /// Computes the join of two domains.
    pub fn join(self, other: Domain) -> (joined: Domain)
        ensures
            joined == join(self, other),
    {
        match (self, other) {
            (Domain::NoFailure, Domain::NoFailure) => Domain::NoFailure,
            _ => Domain::ConcreteFailure,
        }
    }

    /// Tells whether `self` embeds into `target`.
    pub fn embeds_into(self, target: Domain) -> (yes: bool)
        ensures
            yes == embeds(self, target),
    {
        match (self, target) {
            (Domain::ConcreteFailure, Domain::NoFailure) => false,
            _ => true,
        }
    }
}

/// The join table: the join of two domains is `ConcreteFailure` unless both
/// are `NoFailure`, in which case it is `NoFailure`.
pub proof fn lemma_join_table(d1: Domain, d2: Domain)
    ensures
        (d1 == Domain::NoFailure && d2 == Domain::NoFailure) ==> join(d1, d2)
            == Domain::NoFailure,
        !(d1 == Domain::NoFailure && d2 == Domain::NoFailure) ==> join(d1, d2)
            == Domain::ConcreteFailure,
        join(Domain::NoFailure, Domain::NoFailure) == Domain::NoFailure,
        join(Domain::NoFailure, Domain::ConcreteFailure) == Domain::ConcreteFailure,
        join(Domain::ConcreteFailure, Domain::NoFailure) == Domain::ConcreteFailure,
        join(Domain::ConcreteFailure, Domain::ConcreteFailure) == Domain::ConcreteFailure,
{
}

/// Join is commutative.
pub proof fn lemma_join_commutative(d1: Domain, d2: Domain)
    ensures
        join(d1, d2) == join(d2, d1),
{
}

/// Join is idempotent.
pub proof fn lemma_join_idempotent(d: Domain)
    ensures
        join(d, d) == d,
{
}

/// Join is associative.
pub proof fn lemma_join_associative(d1: Domain, d2: Domain, d3: Domain)
    ensures
        join(join(d1, d2), d3) == join(d1, join(d2, d3)),
{
}

/// `NoFailure` is the bottom of the lattice and `ConcreteFailure` its top.
pub proof fn lemma_join_bounds(d: Domain)
    ensures
        join(Domain::NoFailure, d) == d,
        join(d, Domain::NoFailure) == d,
        join(Domain::ConcreteFailure, d) == Domain::ConcreteFailure,
        join(d, Domain::ConcreteFailure) == Domain::ConcreteFailure,
{
}

/// The join is the least upper bound for the embedding order: both operands
/// embed into it, and it embeds into every domain that both embed into.
pub proof fn lemma_join_is_least_upper_bound(d1: Domain, d2: Domain, upper: Domain)
    ensures
        embeds(d1, join(d1, d2)),
        embeds(d2, join(d1, d2)),
        embeds(d1, upper) && embeds(d2, upper) ==> embeds(join(d1, d2), upper),
        embeds(d1, d2) <==> join(d1, d2) == d2,
{
}

} // verus!
