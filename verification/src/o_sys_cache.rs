//! Keys of the system caches.
//!
//! A cached catalog entry is found by the database it belongs to, the WAL
//! position at which it is looked up and up to four catalog key values.
use crate::types::OdbOid;
use vstd::prelude::*;

verus! {

/// Part of every system cache key: database, WAL position, deletion mark
/// and the length of the entry's data.
#[derive(Clone, Copy, Debug, PartialEq, Eq, Structural)]
pub struct OSysCacheKeyCommon {
    pub datoid: OdbOid,
    pub lsn: u64,
    pub deleted: bool,
    pub data_length: i32,
}

impl OSysCacheKeyCommon {
    /// The common part of a key for `datoid` looked up at `lsn`: not
    /// deleted, no data length.
    pub fn new(datoid: OdbOid, lsn: u64) -> (r: Self)
        ensures
            r == (OSysCacheKeyCommon { datoid, lsn, deleted: false, data_length: 0 }),
    {
        OSysCacheKeyCommon { datoid, lsn, deleted: false, data_length: 0 }
    }
}

/// A system cache key with one catalog key value.
#[derive(Clone, Copy, Debug)]
pub struct OSysCacheKey1 {
    pub common: OSysCacheKeyCommon,
    pub keys: [u64; 1],
}

/// A system cache key with two catalog key values.
#[derive(Clone, Copy, Debug)]
pub struct OSysCacheKey2 {
    pub common: OSysCacheKeyCommon,
    pub keys: [u64; 2],
}

/// A system cache key with three catalog key values.
#[derive(Clone, Copy, Debug)]
pub struct OSysCacheKey3 {
    pub common: OSysCacheKeyCommon,
    pub keys: [u64; 3],
}

/// A system cache key with four catalog key values.
#[derive(Clone, Copy, Debug)]
pub struct OSysCacheKey4 {
    pub common: OSysCacheKeyCommon,
    pub keys: [u64; 4],
}

/// A system cache key with any number of catalog key values.
#[derive(Clone, Debug)]
pub struct OSysCacheKey {
    pub common: OSysCacheKeyCommon,
    pub keys: Vec<u64>,
}

impl OSysCacheKey1 {
    /// The key of `arg1` in database `datoid`, looked up at `lsn`.
    pub fn new(datoid: OdbOid, lsn: u64, arg1: u64) -> (r: Self)
        ensures
            r.common == (OSysCacheKeyCommon { datoid, lsn, deleted: false, data_length: 0 }),
            r.keys@ == seq![arg1],
    {
        let r = OSysCacheKey1 { common: OSysCacheKeyCommon::new(datoid, lsn), keys: [arg1] };
        assert(r.keys@ =~= seq![arg1]);
        r
    }
}

impl OSysCacheKey4 {
    /// The key of the four values in database `datoid`, looked up at `lsn`.
    pub fn new(datoid: OdbOid, lsn: u64, arg1: u64, arg2: u64, arg3: u64, arg4: u64) -> (r: Self)
        ensures
            r.common == (OSysCacheKeyCommon { datoid, lsn, deleted: false, data_length: 0 }),
            r.keys@ == seq![arg1, arg2, arg3, arg4],
    {
        let r = OSysCacheKey4 {
            common: OSysCacheKeyCommon::new(datoid, lsn),
            keys: [arg1, arg2, arg3, arg4],
        };
        assert(r.keys@ =~= seq![arg1, arg2, arg3, arg4]);
        r
    }
}

} // verus!
