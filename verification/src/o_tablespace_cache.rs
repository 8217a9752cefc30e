//! Data directory prefixes of a tablespace.
//!
//! The location of a tablespace comes from the server; given it, the data
//! directory of the tablespace and the directory of one database within it
//! are built here as byte strings.
use vstd::prelude::*;

verus! {

/// OID of the server's default tablespace.
pub const DEFAULTTABLESPACE_OID: u32 = 1663;

/// The tablespace to use for `tablespace`: the default tablespace when it is
/// the invalid OID (zero), the tablespace itself otherwise.
pub fn o_tablespace_or_default(tablespace: u32) -> (r: u32)
    ensures
        r == (if tablespace == 0 {
            DEFAULTTABLESPACE_OID
        } else {
            tablespace
        }),
{
    if tablespace == 0 {
        DEFAULTTABLESPACE_OID
    } else {
        tablespace
    }
}

/// The name of OrioleDB's data directory: `orioledb_data`.
pub open spec fn orioledb_data_dir() -> Seq<u8> {
    seq![111u8, 114, 105, 111, 108, 101, 100, 98, 95, 100, 97, 116, 97]
}

/// The byte `/`.
pub const SLASH: u8 = 47;

/// Decimal digits of `n`, most significant first, without leading zeros.
pub open spec fn decimal(n: nat) -> Seq<u8>
    decreases n,
{
    if n < 10 {
        seq![(48 + n) as u8]
    } else {
        decimal(n / 10).push((48 + n % 10) as u8)
    }
}

/// Appends the decimal digits of `n` to `v`.
pub fn push_decimal(v: &mut Vec<u8>, n: u32)
    ensures
        final(v)@ == old(v)@ + decimal(n as nat),
    decreases n,
{
    if n >= 10 {
        push_decimal(v, n / 10);
    }
    let d: u8 = (n % 10) as u8;
    v.push(48 + d);
    proof {
        if n >= 10 {
            assert(decimal(n as nat) == decimal((n / 10) as nat).push((48 + n % 10) as u8));
        }
    }
    assert(v@ =~= old(v)@ + decimal(n as nat));
}

/// Appends the bytes of `s` to `v`.
pub(crate) fn push_bytes(v: &mut Vec<u8>, s: &[u8])
    ensures
        final(v)@ == old(v)@ + s@,
{
    let mut i: usize = 0;
    while i < s.len()
        invariant
            i <= s@.len(),
            v@ == old(v)@ + s@.subrange(0, i as int),
        decreases s@.len() - i,
    {
        v.push(s[i]);
        i = i + 1;
        assert(v@ =~= old(v)@ + s@.subrange(0, i as int));
    }
    assert(s@.subrange(0, s@.len() as int) =~= s@);
}

fn orioledb_data_dir_bytes() -> (v: Vec<u8>)
    ensures
        v@ == orioledb_data_dir(),
{
    let v: Vec<u8> = vec![111u8, 114, 105, 111, 108, 101, 100, 98, 95, 100, 97, 116, 97];
    assert(v@ =~= orioledb_data_dir());
    v
}

/// The data directory of a tablespace at `location`: `orioledb_data` when
/// the location is empty, otherwise `location//orioledb_data` (the version
/// directory between the two slashes is empty).
pub open spec fn spec_tablespace_prefix(location: Seq<u8>) -> Seq<u8> {
    if location.len() == 0 {
        orioledb_data_dir()
    } else {
        location + seq![SLASH, SLASH] + orioledb_data_dir()
    }
}

/// The data directory of a tablespace at `location` and the directory of
/// database `datoid` within it (`prefix/datoid`).
pub fn o_get_prefixes_for_tablespace(datoid: u32, location: &[u8]) -> (r: (Vec<u8>, Vec<u8>))
    ensures
        r.0@ == spec_tablespace_prefix(location@),
        r.1@ == spec_tablespace_prefix(location@) + seq![SLASH] + decimal(datoid as nat),
{
    let mut prefix: Vec<u8> = Vec::new();
    if location.len() == 0 {
        prefix = orioledb_data_dir_bytes();
    } else {
        push_bytes(&mut prefix, location);
        prefix.push(SLASH);
        prefix.push(SLASH);
        let d = orioledb_data_dir_bytes();
        push_bytes(&mut prefix, d.as_slice());
        assert(prefix@ =~= spec_tablespace_prefix(location@));
    }
    let mut db_prefix: Vec<u8> = Vec::new();
    push_bytes(&mut db_prefix, prefix.as_slice());
    db_prefix.push(SLASH);
    push_decimal(&mut db_prefix, datoid);
    assert(db_prefix@ =~= spec_tablespace_prefix(location@) + seq![SLASH] + decimal(datoid as nat));
    (prefix, db_prefix)
}

} // verus!
