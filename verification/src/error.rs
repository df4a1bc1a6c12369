//! The concrete failure type: a reason, and the chain of annotations that the
//! failure gained on its way up.

use crate::coerce::{Concrete, Failure};
use crate::never::Never;
use vstd::prelude::*;

verus! {

/// What one layer of a failure says.
#[derive(Debug)]
pub enum ErrorKind {
    /// A reason given by the operation that detected the failure.
    Msg(String),
    /// The failure happened in the producing stage of a pipe.
    Producer,
    /// The failure happened in the consuming stage of a pipe.
    Consumer,
}

/// The mathematical value of an [`ErrorKind`].
pub ghost enum Layer {
    Msg(Seq<char>),
    Producer,
    Consumer,
}

/// The reason carried by a failed range check.
pub open spec fn too_wide_reason() -> Seq<char> {
    "value exceeds destination width"@
}

/// The text that describes a layer.
pub open spec fn layer_description(layer: Layer) -> Seq<char> {
    match layer {
        Layer::Msg(reason) => reason,
        Layer::Producer => "failed while producing"@,
        Layer::Consumer => "failed while consuming"@,
    }
}

impl View for ErrorKind {
    type V = Layer;

    open spec fn view(&self) -> Layer {
        match self {
            ErrorKind::Msg(reason) => Layer::Msg(reason@),
            ErrorKind::Producer => Layer::Producer,
            ErrorKind::Consumer => Layer::Consumer,
        }
    }
}

impl ErrorKind {
    /// The text that describes this kind of failure.
    pub fn description(&self) -> (text: String)
        ensures
            text@ == layer_description(self@),
    {
        match self {
            ErrorKind::Msg(reason) => reason.clone(),
            ErrorKind::Producer => "failed while producing".to_owned(),
            ErrorKind::Consumer => "failed while consuming".to_owned(),
        }
    }
}

/// A failure: its outermost layer, and the failure that caused it, if any.
///
/// Its view is the sequence of its layers, outermost first.
#[derive(Debug)]
pub struct MyError {
    kind: ErrorKind,
    cause: Option<Box<MyError>>,
}

impl View for MyError {
    type V = Seq<Layer>;

    closed spec fn view(&self) -> Seq<Layer> {
        self.layers()
    }
}

impl MyError {
    /// The layers of this failure, outermost first.
    spec fn layers(&self) -> Seq<Layer>
        decreases self,
    {
        match self.cause {
            Some(inner) => seq![self.kind@] + inner.layers(),
            None => seq![self.kind@],
        }
    }

    /// A failure of one layer.
    pub fn new(kind: ErrorKind) -> (error: MyError)
        ensures
            error@ == seq![kind@],
    {
        MyError { kind, cause: None }
    }

    /// A failure of one layer that carries the given reason.
    pub fn from_msg(reason: &str) -> (error: MyError)
        ensures
            error@ == seq![Layer::Msg(reason@)],
    {
        MyError { kind: ErrorKind::Msg(reason.to_owned()), cause: None }
    }

    /// The failure of a range check: a value did not fit its destination.
    pub fn too_wide() -> (error: MyError)
        ensures
            error@ == seq![Layer::Msg(too_wide_reason())],
    {
        MyError::from_msg("value exceeds destination width")
    }

    /// Wraps `cause` in one more layer.
    pub fn with_chain(cause: MyError, kind: ErrorKind) -> (error: MyError)
        ensures
            error@ == seq![kind@] + cause@,
    {
        MyError { kind, cause: Some(Box::new(cause)) }
    }

    /// The outermost layer.
    pub fn kind(&self) -> (kind: &ErrorKind)
        ensures
            self@.len() >= 1,
            kind@ == self@[0],
    {
        &self.kind
    }

    /// The failure below the outermost layer, if there is one.
    pub fn cause(&self) -> (cause: Option<&MyError>)
        ensures
            self@.len() >= 1,
            cause is None <==> self@.len() == 1,
            cause matches Some(inner) ==> inner@ == self@.skip(1),
    {
        match &self.cause {
            Some(inner) => {
                proof {
                    lemma_has_a_layer(**inner);
                    assert(self@.skip(1) =~= inner@);
                }
                Some(&**inner)
            },
            None => None,
        }
    }

    /// The text that describes the outermost layer.
    pub fn description(&self) -> (text: String)
        ensures
            self@.len() >= 1,
            text@ == layer_description(self@[0]),
    {
        self.kind.description()
    }

    /// The texts that describe the layers, outermost first.
    pub fn descriptions(&self) -> (texts: Vec<String>)
        ensures
            texts@.len() == self@.len(),
            forall|i: int| 0 <= i < texts@.len() ==> texts@[i]@ == layer_description(self@[i]),
    {
        let mut texts: Vec<String> = Vec::new();
        let mut current: &MyError = self;
        texts.push(current.description());
        loop
            invariant
                1 <= texts@.len() <= self@.len(),
                current@ == self@.skip(texts@.len() - 1),
                forall|i: int|
                    0 <= i < texts@.len() ==> texts@[i]@ == layer_description(self@[i]),
            ensures
                texts@.len() == self@.len(),
            decreases self@.len() - texts@.len(),
        {
            match current.cause() {
                Some(inner) => {
                    proof {
                        lemma_has_a_layer(*inner);
                        assert(inner@ =~= self@.skip(texts@.len() as int));
                    }
                    current = inner;
                    texts.push(current.description());
                },
                None => {
                    break ;
                },
            }
        }
        texts
    }
}

impl Concrete for MyError {}

/// This conversion can never happen, since `Never` has no value; it lets `?`
/// carry an infallible result into a function that may fail.
impl From<Never> for MyError {
    fn from(never: Never) -> (error: MyError) {
        never.widen()
    }
}

impl vstd::std_specs::convert::FromSpecImpl<Never> for MyError {
    open spec fn obeys_from_spec() -> bool {
        true
    }

    open spec fn from_spec(never: Never) -> MyError {
        never.widened()
    }
}

/// `chained` is `result` widened into the concrete failure type, with
/// `layer` wrapped around its failure, if it holds one.
pub open spec fn annotated<T, E: Failure<MyError>>(
    result: Result<T, E>,
    layer: Layer,
    chained: Result<T, MyError>,
) -> bool {
    match result {
        Ok(value) => chained == Ok::<T, MyError>(value),
        Err(error) => chained matches Err(outer) && outer@ == seq![layer] + error.widened()@,
    }
}

/// Widens a result into the concrete failure type, whatever its domain, and
/// wraps a failure in one more layer that says where it happened.
pub fn chain_err<T, E: Failure<MyError>>(result: Result<T, E>, kind: ErrorKind) -> (chained:
    Result<T, MyError>)
    ensures
        annotated(result, kind@, chained),
        chained matches Err(outer) ==> outer@.len() >= 2,
{
    match result {
        Ok(value) => Ok(value),
        Err(error) => {
            let cause = error.widen();
            proof {
                lemma_has_a_layer(cause);
            }
            Err(MyError::with_chain(cause, kind))
        },
    }
}

/// Every failure has at least one layer.
pub proof fn lemma_has_a_layer(error: MyError)
    ensures
        error@.len() >= 1,
    decreases error,
{
    match error.cause {
        Some(inner) => {
            lemma_has_a_layer(*inner);
        },
        None => {},
    }
}

} // verus!
