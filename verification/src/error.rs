use vstd::prelude::*;

verus! {

/// Why construction of a pool can fail.
#[derive(Debug, Clone, Copy, PartialEq, Eq, Structural)]
pub enum PoolCreationError {
    /// A pool was requested with zero workers; a pool must hold at least one.
    InvalidSize,
}

impl PoolCreationError {
    /// A short description of the error.
    pub fn message(&self) -> (r: &'static str)
        ensures
            r@ == "InvalidSize"@,
    {
        "InvalidSize"
    }
}

} // verus!
