//! The one way an operation of this library can fail.

use vstd::prelude::*;

verus! {

/// The storage that an operation needs is checked out to an exclusive
/// borrower that has not handed it back.
#[derive(Clone, Copy, Debug, PartialEq, Eq, Structural)]
pub struct BorrowConflict;

} // verus!
