//! Cached metadata of operator classes: the family, the input type and the
//! comparison and sort-support procedures used by OrioleDB's comparators.
use vstd::prelude::*;

verus! {

/// Support procedure number of the B-tree comparison function.
pub const BTORDER_PROC: i16 = 1;

/// Support procedure number of the B-tree sort-support function.
pub const BTSORTSUPPORT_PROC: i16 = 2;

/// An operator class cache entry.
#[derive(Clone, Copy, Debug, PartialEq, Eq, Structural)]
pub struct OOpclass {
    pub opfamily: u32,
    pub inputtype: u32,
    pub cmp_oid: u32,
    pub ssup_oid: u32,
}

/// A support procedure to look up in an operator family: family, left and
/// right input types, procedure number.
#[derive(Clone, Copy, Debug, PartialEq, Eq, Structural)]
pub struct OpfamilyProcLookup {
    pub opfamily: u32,
    pub lefttype: u32,
    pub righttype: u32,
    pub procnum: i16,
}

/// The two support procedures an operator class entry needs: sort support
/// and comparison, both on the class's input type on either side.
pub fn o_opclass_cache_proc_lookups(opcfamily: u32, opcintype: u32) -> (r: (
    OpfamilyProcLookup,
    OpfamilyProcLookup,
))
    ensures
        r.0 == (OpfamilyProcLookup {
            opfamily: opcfamily,
            lefttype: opcintype,
            righttype: opcintype,
            procnum: BTSORTSUPPORT_PROC,
        }),
        r.1 == (OpfamilyProcLookup {
            opfamily: opcfamily,
            lefttype: opcintype,
            righttype: opcintype,
            procnum: BTORDER_PROC,
        }),
{
    (
        OpfamilyProcLookup {
            opfamily: opcfamily,
            lefttype: opcintype,
            righttype: opcintype,
            procnum: BTSORTSUPPORT_PROC,
        },
        OpfamilyProcLookup {
            opfamily: opcfamily,
            lefttype: opcintype,
            righttype: opcintype,
            procnum: BTORDER_PROC,
        },
    )
}

/// Builds the cache entry of an operator class from its family and input
/// type and the two support procedures found for them.
pub fn o_opclass_cache_fill_entry(opcfamily: u32, opcintype: u32, ssup_oid: u32, cmp_oid: u32) -> (e:
    OOpclass)
    ensures
        e == (OOpclass { opfamily: opcfamily, inputtype: opcintype, cmp_oid, ssup_oid }),
{
    OOpclass { opfamily: opcfamily, inputtype: opcintype, cmp_oid, ssup_oid }
}

} // verus!
