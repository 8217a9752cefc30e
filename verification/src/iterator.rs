//! B-tree iteration handles.
use vstd::prelude::*;

verus! {

/// Opaque handle of a B-tree iterator, owned by the tree code that
/// allocates it.
pub struct BTreeIterator {}

} // verus!
