//! The one way an operation on a chain can be refused.
use vstd::prelude::*;

verus! {

/// Why an operation was refused. Nothing is changed by a refused operation.
#[derive(Clone, Copy, Debug, PartialEq, Eq, Structural)]
pub enum SysError {
    /// A mass was addressed that the chain does not have.
    IndexOutOfRange {
        /// The index that was asked for.
        index: usize,
        /// The number of masses at the time.
        len: usize,
    },
}

} // verus!
