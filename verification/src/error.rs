use vstd::prelude::*;

verus! {

/// Returned when an operation names a tab identifier that the collection
/// does not hold. Never a panic: callers decide whether to surface it.
#[derive(PartialEq, Eq, Debug)]
pub struct IdNotFound {
    /// The identifier that was not found.
    pub id: String,
}

} // verus!
