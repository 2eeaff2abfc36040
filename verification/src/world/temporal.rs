//! What passes through time.

use crate::error::Error;
use crate::world::body::Body;
use vstd::prelude::*;

verus! {

/// What can be advanced through time. The time that has passed is in
/// `advance`, which makes of a body the body that it has become, or fails.
///
/// A whole is advanced by advancing each of its parts. One part's failure
/// does not keep the others from being advanced: every part is advanced,
/// and then the first failure, if there was one, is the failure of the
/// whole.
pub trait Temporal {
    /// Advances through the time that is in `advance`.
    fn update<A: Fn(&Body) -> Result<Body, Error>>(&mut self, advance: &A) -> (done: Result<
        (),
        Error,
    >)
        requires
            forall|body: &Body| advance.requires((body,)),
    ;
}

} // verus!
