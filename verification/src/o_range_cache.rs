//! Cached metadata of range and multirange types.
use vstd::prelude::*;

verus! {

/// A range cache entry: the subtype, its operator class and collation.
#[derive(Clone, Copy, Debug, PartialEq, Eq, Structural)]
pub struct ORange {
    pub rngsubtype: u32,
    pub rngsubopc: u32,
    pub rngcollation: u32,
}

/// A multirange cache entry: the range type of the multirange.
#[derive(Clone, Copy, Debug, PartialEq, Eq, Structural)]
pub struct OMultiRange {
    pub rngtypid: u32,
}

/// Builds the cache entry of a range type from its catalog row values.
pub fn o_range_cache_fill_entry(rngsubtype: u32, rngsubopc: u32, rngcollation: u32) -> (e: ORange)
    ensures
        e == (ORange { rngsubtype, rngsubopc, rngcollation }),
{
    ORange { rngsubtype, rngsubopc, rngcollation }
}

/// Builds the cache entry of a multirange type from the range type its
/// catalog row names.
pub fn o_multirange_cache_fill_entry(rngtypid: u32) -> (e: OMultiRange)
    ensures
        e == (OMultiRange { rngtypid }),
{
    OMultiRange { rngtypid }
}

} // verus!
