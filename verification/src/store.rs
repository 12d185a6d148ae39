//! What the store answers. The store itself is outside this crate: its
//! caller runs the query and hands the answer in as one of these values.

use vstd::prelude::*;

verus! {

/// The store could not answer.
#[derive(Debug, Clone, Copy, PartialEq, Eq, Structural)]
pub struct DbError;

/// Why a row could not be inserted.
#[derive(Debug, Clone, Copy, PartialEq, Eq, Structural)]
pub enum InsertError {
    /// A row with the same unique key is there already.
    Duplicate,
    /// Anything else.
    Other,
}

} // verus!
