//! System trees: the fixed set of B-trees holding OrioleDB's own catalog.
use vstd::prelude::*;

verus! {

/// Number of system trees; they are numbered from 1 to `SYS_TREES_NUM`.
pub const SYS_TREES_NUM: i32 = 23;

/// Error raised for a system tree number outside `1..=SYS_TREES_NUM`.
#[derive(Clone, Copy, Debug, PartialEq, Eq, Structural)]
pub enum SysTreesError {
    /// The number is not among the system tree numbers.
    InvalidTreeNum { num: i32 },
}

/// Checks a system tree number given by a user: it must lie in
/// `1..=SYS_TREES_NUM`.
pub fn check_tree_num_input(num: i32) -> (r: Result<(), SysTreesError>)
    ensures
        r is Ok <==> 1 <= num <= SYS_TREES_NUM,
        r is Err ==> r == Err::<(), SysTreesError>(SysTreesError::InvalidTreeNum { num }),
{
    if !(num >= 1 && num <= SYS_TREES_NUM) {
        return Err(SysTreesError::InvalidTreeNum { num });
    }
    Ok(())
}

} // verus!
