//! A marker that keeps the framework's context structs open for new fields.

use vstd::prelude::*;

verus! {

/// Stands in the framework's context structs, so that adding a field later
/// breaks no one who builds them.
#[derive(Debug, Clone, Copy, PartialEq, Eq, PartialOrd, Ord, Hash)]
pub struct NonExhaustive;

} // verus!
