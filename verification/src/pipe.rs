//! Producers, consumers, and the two ways of piping one into the other.

use crate::coerce::{
    lift, lift_other, same_outcome, CoercedError, CoercedResult, CoercibleWith, Failure,
};
use crate::domain::{join, Domain};
use crate::error::{annotated, chain_err, too_wide_reason, ErrorKind, Layer, MyError};
use crate::never::Never;
use vstd::prelude::*;

verus! {

/// Something that produces a value, and may fail to.
pub trait Producer {
    /// The failure type that this producer can raise: [`MyError`], or
    /// [`Never`] for a producer that always succeeds.
    type Error: CoercibleWith<MyError, MyError>;

    /// `result` is a possible outcome of [`produce`](Producer::produce).
    spec fn produces(&self, result: Result<u16, Self::Error>) -> bool;

    /// Produce a value.
    fn produce(&self) -> (result: Result<u16, Self::Error>)
        ensures
            self.produces(result),
    ;
}

/// Something that consumes a value, and may fail to.
pub trait Consumer {
    /// The failure type that this consumer can raise: [`MyError`], or
    /// [`Never`] for a consumer that always succeeds.
    type Error: CoercibleWith<MyError, MyError>;

    /// Consuming `val` in the state `self` may give `result` and leave the
    /// consumer in the state `after`.
    spec fn consumes(&self, val: u16, result: Result<(), Self::Error>, after: &Self) -> bool;

    /// Consume a value.
    fn consume(&mut self, val: u16) -> (result: Result<(), Self::Error>)
        ensures
            old(self).consumes(val, result, final(self)),
    ;
}

impl Producer for u16 {
    type Error = Never;

    open spec fn produces(&self, result: Result<u16, Never>) -> bool {
        result == Ok::<u16, Never>(*self)
    }

    fn produce(&self) -> (result: Result<u16, Never>) {
        Ok(*self)
    }
}

impl Producer for u32 {
    type Error = MyError;

    open spec fn produces(&self, result: Result<u16, MyError>) -> bool {
        if *self <= 0xFFFF {
            result == Ok::<u16, MyError>(*self as u16)
        } else {
            result matches Err(error) && error@ == seq![Layer::Msg(too_wide_reason())]
        }
    }

    fn produce(&self) -> (result: Result<u16, MyError>) {
        if *self <= 0xFFFF {
            Ok(*self as u16)
        } else {
            Err(MyError::too_wide())
        }
    }
}

impl Consumer for u16 {
    type Error = Never;

    open spec fn consumes(&self, val: u16, result: Result<(), Never>, after: &u16) -> bool {
        result is Ok && *after == val
    }

    fn consume(&mut self, val: u16) -> (result: Result<(), Never>) {
        *self = val;
        Ok(())
    }
}

impl Consumer for u8 {
    type Error = MyError;

    open spec fn consumes(&self, val: u16, result: Result<(), MyError>, after: &u8) -> bool {
        if val <= 0xff {
            result is Ok && *after == val
        } else {
            &&& result matches Err(error) && error@ == seq![Layer::Msg(too_wide_reason())]
            &&& *after == *self
        }
    }

    fn consume(&mut self, val: u16) -> (result: Result<(), MyError>) {
        if val <= 0xff {
            *self = val as u8;
            Ok(())
        } else {
            Err(MyError::too_wide())
        }
    }
}

/// A producer that produces the greater of what two producers produce.
pub struct PMax<First, Second>(pub First, pub Second);

/// The greater of two values.
pub open spec fn greater(a: u16, b: u16) -> u16 {
    if a >= b {
        a
    } else {
        b
    }
}

impl<First: Producer, Second: Producer> Producer for PMax<First, Second> where
    First::Error: CoercibleWith<Second::Error, MyError>,
    CoercedError<First::Error, Second::Error, MyError>: CoercibleWith<MyError, MyError>,
{
    type Error = CoercedError<First::Error, Second::Error, MyError>;

    /// The first producer is asked first, and the second only where the first
    /// succeeded. A failure of either keeps its layers.
    open spec fn produces(&self, result: Result<u16, Self::Error>) -> bool {
        exists|first: Result<u16, First::Error>| #[trigger]
            self.0.produces(first) && match first {
                Ok(a) => exists|second: Result<u16, Second::Error>| #[trigger]
                    self.1.produces(second) && match second {
                        Ok(b) => result == Ok::<u16, Self::Error>(greater(a, b)),
                        Err(error) => same_outcome::<u16, Self::Error, Second::Error, MyError>(
                            result,
                            Err(error),
                        ),
                    },
                Err(error) => same_outcome::<u16, Self::Error, First::Error, MyError>(
                    result,
                    Err(error),
                ),
            }
    }

    fn produce(&self) -> (result: Result<u16, Self::Error>) {
        let first = self.0.produce();
        match lift::<u16, First::Error, Second::Error, MyError>(first) {
            Ok(a) => {
                let second = self.1.produce();
                match lift_other::<u16, First::Error, Second::Error, MyError>(second) {
                    Ok(b) => Ok(
                        if a >= b {
                            a
                        } else {
                            b
                        },
                    ),
                    Err(wider) => Err(wider),
                }
            },
            Err(wider) => Err(wider),
        }
    }
}

/// One run of the widening pipe, from what the producer returned: `result`
/// and the consumer's state `after` come from feeding the consumer in the
/// state `before` with the value produced. A failure is widened into the
/// concrete failure type and wrapped in a layer that names its stage. Where
/// producing failed, the consumer is left as it was.
pub open spec fn widening_step<E: Failure<MyError>, C: Consumer>(
    produced: Result<u16, E>,
    before: &C,
    after: &C,
    result: Result<(), MyError>,
) -> bool {
    match produced {
        Ok(val) => exists|consumed: Result<(), C::Error>| #[trigger]
            before.consumes(val, consumed, after) && annotated(consumed, Layer::Consumer, result),
        Err(error) => {
            &&& after == before
            &&& result matches Err(outer)
            &&& outer@ == seq![Layer::Producer] + error.widened()@
        },
    }
}

/// One run of the minimal pipe, from what the producer returned: `result`
/// and the consumer's state `after` come from feeding the consumer in the
/// state `before` with the value produced. A failure keeps its layers and
/// gains none. Where producing failed, the consumer is left as it was.
pub open spec fn minimal_step<E: CoercibleWith<C::Error, MyError>, C: Consumer>(
    produced: Result<u16, E>,
    before: &C,
    after: &C,
    result: CoercedResult<(), E, C::Error, MyError>,
) -> bool {
    match produced {
        Ok(val) => exists|consumed: Result<(), C::Error>| #[trigger]
            before.consumes(val, consumed, after) && same_outcome::<
                (),
                CoercedError<E, C::Error, MyError>,
                C::Error,
                MyError,
            >(result, consumed),
        Err(error) => {
            &&& after == before
            &&& same_outcome::<(), CoercedError<E, C::Error, MyError>, E, MyError>(
                result,
                Err(error),
            )
        },
    }
}

/// What the widening pipe does: one run, from some outcome of the producer.
pub open spec fn widening_pipe<P: Producer, C: Consumer>(
    p: &P,
    before: &C,
    after: &C,
    result: Result<(), MyError>,
) -> bool {
    exists|produced: Result<u16, P::Error>| #[trigger]
        p.produces(produced) && widening_step(produced, before, after, result)
}

/// What the minimal pipe does: one run, from some outcome of the producer.
pub open spec fn minimal_pipe<P: Producer, C: Consumer>(
    p: &P,
    before: &C,
    after: &C,
    result: CoercedResult<(), P::Error, C::Error, MyError>,
) -> bool where P::Error: CoercibleWith<C::Error, MyError> {
    exists|produced: Result<u16, P::Error>| #[trigger]
        p.produces(produced) && minimal_step(produced, before, after, result)
}

/// The widening pipe short-circuits: where producing failed, the pipe fails
/// and the consumer is unchanged.
pub proof fn lemma_widening_pipe_short_circuits<E: Failure<MyError>, C: Consumer>(
    produced: Result<u16, E>,
    before: &C,
    after: &C,
    result: Result<(), MyError>,
)
    requires
        produced is Err,
        widening_step(produced, before, after, result),
    ensures
        after == before,
        result is Err,
{
}

/// The minimal pipe short-circuits: where producing failed, the pipe fails
/// and the consumer is unchanged.
pub proof fn lemma_minimal_pipe_short_circuits<E: CoercibleWith<C::Error, MyError>, C: Consumer>(
    produced: Result<u16, E>,
    before: &C,
    after: &C,
    result: CoercedResult<(), E, C::Error, MyError>,
)
    requires
        produced is Err,
        minimal_step(produced, before, after, result),
    ensures
        after == before,
        result is Err,
{
}

/// This is the naive version of pipe; it always returns a result in the
/// domain of concrete failures, even if neither the producer nor the consumer
/// can fail.
pub fn pipe1<P: Producer, C: Consumer>(p: &P, c: &mut C) -> (result: Result<(), MyError>)
    ensures
        widening_pipe(p, old(c), final(c), result),
        result matches Err(outer) ==> outer@.len() >= 2 && (outer@[0] == Layer::Producer
            || outer@[0] == Layer::Consumer),
        <MyError as Failure<MyError>>::domain() == Domain::ConcreteFailure,
{
    let produced = p.produce();
    match chain_err(produced, ErrorKind::Producer) {
        Ok(val) => {
            let consumed = c.consume(val);
            chain_err(consumed, ErrorKind::Consumer)
        },
        Err(outer) => Err(outer),
    }
}

/// This is the smart version of pipe; it returns a result in the smallest
/// possible domain, the join of the producer's and the consumer's.
pub fn pipe2<P: Producer, C: Consumer>(p: &P, c: &mut C) -> (result: CoercedResult<
    (),
    P::Error,
    C::Error,
    MyError,
>) where P::Error: CoercibleWith<C::Error, MyError>
    ensures
        minimal_pipe(p, old(c), final(c), result),
        <CoercedError<P::Error, C::Error, MyError> as Failure<MyError>>::domain() == join(
            <P::Error as Failure<MyError>>::domain(),
            <C::Error as Failure<MyError>>::domain(),
        ),
{
    proof {
        <P::Error as CoercibleWith<C::Error, MyError>>::lemma_into_is_join();
    }
    let produced = p.produce();
    match lift::<u16, P::Error, C::Error, MyError>(produced) {
        Ok(val) => {
            let consumed = c.consume(val);
            lift_other::<(), P::Error, C::Error, MyError>(consumed)
        },
        Err(wider) => Err(wider),
    }
}

} // verus!
