//! Cached metadata of aggregate functions.
use vstd::prelude::*;

verus! {

/// The values of an aggregate's catalog row that the cache keeps.
#[derive(Clone, Debug)]
pub struct AggregateRow {
    pub aggfinalfn: u32,
    pub aggserialfn: u32,
    pub aggdeserialfn: u32,
    pub aggfinalextra: bool,
    pub aggcombinefn: u32,
    pub aggtransfn: u32,
    pub aggfinalmodify: u8,
    pub aggmfinalextra: bool,
    pub aggmfinalfn: u32,
    pub aggmfinalmodify: u8,
    pub aggminvtransfn: u32,
    pub aggmtransfn: u32,
    pub aggmtranstype: u32,
    pub aggtranstype: u32,
    /// Initial value of the transition state, when not null.
    pub agginitval: Option<Vec<u8>>,
    /// Initial value of the moving-aggregate state, when not null.
    pub aggminitval: Option<Vec<u8>>,
}

/// An aggregate cache entry.
#[derive(Clone, Debug)]
pub struct OAggregate {
    pub data_version: u16,
    pub aggfinalfn: u32,
    pub aggserialfn: u32,
    pub aggdeserialfn: u32,
    pub aggfinalextra: bool,
    pub aggcombinefn: u32,
    pub aggtransfn: u32,
    pub aggfinalmodify: u8,
    pub aggmfinalextra: bool,
    pub aggmfinalfn: u32,
    pub aggmfinalmodify: u8,
    pub aggminvtransfn: u32,
    pub aggmtransfn: u32,
    pub aggmtranstype: u32,
    pub aggtranstype: u32,
    /// The transition state has an initial value.
    pub has_initval: bool,
    /// The moving-aggregate state has an initial value.
    pub has_minitval: bool,
    /// Initial value of the transition state (empty when none).
    pub agginitval: Vec<u8>,
    /// Initial value of the moving-aggregate state (empty when none).
    pub aggminitval: Vec<u8>,
}

/// Builds the cache entry of an aggregate from its catalog row, stamped with
/// the system tree version: the procedures and types are copied, and the
/// initial values are kept with flags telling whether they were present.
pub fn o_aggregate_cache_fill_entry(row: AggregateRow, sys_tree_version: u16) -> (e: OAggregate)
    ensures
        e.data_version == sys_tree_version,
        e.aggfinalfn == row.aggfinalfn && e.aggserialfn == row.aggserialfn && e.aggdeserialfn
            == row.aggdeserialfn && e.aggfinalextra == row.aggfinalextra && e.aggcombinefn
            == row.aggcombinefn && e.aggtransfn == row.aggtransfn && e.aggfinalmodify
            == row.aggfinalmodify && e.aggmfinalextra == row.aggmfinalextra && e.aggmfinalfn
            == row.aggmfinalfn && e.aggmfinalmodify == row.aggmfinalmodify && e.aggminvtransfn
            == row.aggminvtransfn && e.aggmtransfn == row.aggmtransfn && e.aggmtranstype
            == row.aggmtranstype && e.aggtranstype == row.aggtranstype,
        e.has_initval == row.agginitval.is_some(),
        e.has_minitval == row.aggminitval.is_some(),
        row.agginitval matches Some(v) ==> e.agginitval@ == v@,
        row.agginitval is None ==> e.agginitval@.len() == 0,
        row.aggminitval matches Some(v) ==> e.aggminitval@ == v@,
        row.aggminitval is None ==> e.aggminitval@.len() == 0,
{
    let (has_initval, agginitval) = match row.agginitval {
        Some(v) => (true, v),
        None => (false, Vec::new()),
    };
    let (has_minitval, aggminitval) = match row.aggminitval {
        Some(v) => (true, v),
        None => (false, Vec::new()),
    };
    OAggregate {
        data_version: sys_tree_version,
        aggfinalfn: row.aggfinalfn,
        aggserialfn: row.aggserialfn,
        aggdeserialfn: row.aggdeserialfn,
        aggfinalextra: row.aggfinalextra,
        aggcombinefn: row.aggcombinefn,
        aggtransfn: row.aggtransfn,
        aggfinalmodify: row.aggfinalmodify,
        aggmfinalextra: row.aggmfinalextra,
        aggmfinalfn: row.aggmfinalfn,
        aggmfinalmodify: row.aggmfinalmodify,
        aggminvtransfn: row.aggminvtransfn,
        aggmtransfn: row.aggmtransfn,
        aggmtranstype: row.aggmtranstype,
        aggtranstype: row.aggtranstype,
        has_initval,
        has_minitval,
        agginitval,
        aggminitval,
    }
}

} // verus!
