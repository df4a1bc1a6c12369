//! Zero-cost error handling for generic traits.
//!
//! A generic trait whose methods return `Result` lets each implementation
//! choose its failure type among two failure domains: [`Never`], for an
//! implementation that always succeeds, and a concrete failure type such as
//! [`MyError`], for one that may fail. Code that composes two such
//! implementations returns a result in the join of their domains, so that a
//! composition of infallible parts is itself infallible and carries no
//! failure representation at all.

pub mod coerce;
pub mod domain;
pub mod error;
pub mod never;
pub mod pipe;

pub use crate::coerce::{
    joined_domain, lift, lift_other, CoercedError, CoercedResult, CoercibleWith, Concrete,
    Failure,
};
pub use crate::domain::Domain;
pub use crate::error::{chain_err, ErrorKind, MyError};
pub use crate::never::{into_ok, Never, OkResult};
pub use crate::pipe::{pipe1, pipe2, Consumer, PMax, Producer};
