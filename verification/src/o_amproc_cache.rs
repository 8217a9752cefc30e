//! Cached access-method support procedures.
use crate::o_sys_cache::{OSysCacheKey4, OSysCacheKeyCommon};
use crate::o_tablespace_cache::{decimal, push_bytes, push_decimal};
use crate::types::OdbOid;
use vstd::prelude::*;

verus! {

/// Key of an access-method procedure: family, left and right types and
/// procedure number.
#[derive(Clone, Copy, Debug, PartialEq, Eq, Structural)]
pub struct OAmProcKey {
    pub amprocfamily: u32,
    pub amproclefttype: u32,
    pub amprocrighttype: u32,
    pub amprocnum: i16,
}

/// An access-method procedure cache entry.
#[derive(Clone, Copy, Debug, PartialEq, Eq, Structural)]
pub struct OAmProc {
    pub key: OAmProcKey,
    pub amproc: u32,
}

/// Number of attributes of a catalog row of access-method procedures.
pub const NATTS_PG_AMPROC: usize = 6;

/// Builds the cache entry for a key from the procedure its catalog row names.
pub fn o_amproc_cache_fill_entry(key: OAmProcKey, amproc: u32) -> (e: OAmProc)
    ensures
        e == (OAmProc { key, amproc }),
{
    OAmProc { key, amproc }
}

/// The system cache key of a procedure in database `datoid`, looked up at
/// `lsn`: the three OIDs as they are and the procedure number widened with
/// its sign.
pub fn o_amproc_cache_key(datoid: OdbOid, lsn: u64, key: OAmProcKey) -> (r: OSysCacheKey4)
    ensures
        r.common == (OSysCacheKeyCommon { datoid, lsn, deleted: false, data_length: 0 }),
        r.keys@ == seq![
            key.amprocfamily as u64,
            key.amproclefttype as u64,
            key.amprocrighttype as u64,
            key.amprocnum as u64,
        ],
{
    OSysCacheKey4::new(
        datoid,
        lsn,
        key.amprocfamily as u64,
        key.amproclefttype as u64,
        key.amprocrighttype as u64,
        key.amprocnum as u64,
    )
}

/// The attribute values of the catalog row formed from a cached entry: only
/// the last attribute, the procedure, is filled in, the others are zero and
/// none is null.  No row when nothing is cached.
pub fn o_amproc_cache_htup_values(entry: Option<&OAmProc>) -> (r: Option<Vec<u64>>)
    ensures
        r matches Some(v) ==> entry matches Some(e) && v@ == seq![0u64, 0, 0, 0, 0, e.amproc as u64],
        r is None <==> entry is None,
{
    match entry {
        Some(e) => {
            let mut values: Vec<u64> = vec![0u64, 0, 0, 0, 0, 0];
            values.set(NATTS_PG_AMPROC - 1, e.amproc as u64);
            assert(values@ =~= seq![0u64, 0, 0, 0, 0, e.amproc as u64]);
            Some(values)
        },
        None => None,
    }
}

/// The text `, amproc: `.
pub open spec fn amproc_label() -> Seq<u8> {
    seq![44u8, 32, 97, 109, 112, 114, 111, 99, 58, 32]
}

/// Appends the printed form of a cached entry to `buf`: the printed key
/// and the procedure, in parentheses.
pub fn o_amproc_cache_tup_print(buf: &mut Vec<u8>, key_text: &[u8], entry: &OAmProc)
    ensures
        final(buf)@ == old(buf)@ + seq![40u8] + key_text@ + amproc_label() + decimal(
            entry.amproc as nat,
        ) + seq![41u8],
{
    buf.push(40u8);
    push_bytes(buf, key_text);
    let label: Vec<u8> = vec![44u8, 32, 97, 109, 112, 114, 111, 99, 58, 32];
    assert(label@ =~= amproc_label());
    push_bytes(buf, label.as_slice());
    push_decimal(buf, entry.amproc);
    buf.push(41u8);
    assert(buf@ =~= old(buf)@ + seq![40u8] + key_text@ + amproc_label() + decimal(
        entry.amproc as nat,
    ) + seq![41u8]);
}

} // verus!
