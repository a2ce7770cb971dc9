//! How a procedure that alternates decisions and outside work goes on.

use vstd::prelude::*;

verus! {

/// What follows an event: the procedure goes on in a new state with an action to perform next,
/// or it returns.
#[derive(Debug)]
pub enum Step<S, A, R> {
    Continue(S, A),
    Return(R),
}

} // verus!
