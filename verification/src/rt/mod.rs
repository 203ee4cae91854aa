//! Integrations with the `hyper::rt` module.

use vstd::prelude::*;

pub mod executor;
pub mod futures;
pub mod timer;

pub use self::executor::{execute, SmolExecutor};
pub use self::futures::FuturesIo;
pub use self::timer::{SmolSleep, SmolTimer};

verus! {

/// `std::task::Poll`, with both of its variants visible to proofs.
#[verifier::external_type_specification]
#[verifier::reject_recursive_types(T)]
pub struct ExPoll<T>(std::task::Poll<T>);

/// `std::task::Context`, carried through to the runtime untouched.
#[verifier::external_type_specification]
#[verifier::external_body]
pub struct ExContext<'a>(std::task::Context<'a>);

} // verus!
