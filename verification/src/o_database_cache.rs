//! Cached metadata of databases.
use vstd::prelude::*;

verus! {

/// Encoding id of `SQL_ASCII`, the encoding assumed when no database entry
/// is cached.
pub const PG_SQL_ASCII: i32 = 0;

/// The values of a database's catalog row that the cache keeps.
#[derive(Clone, Debug)]
pub struct DatabaseRow {
    pub encoding: i32,
    pub datlocprovider: u8,
    pub datlocale: Option<Vec<u8>>,
    pub daticurules: Option<Vec<u8>>,
    pub datcollate: Option<Vec<u8>>,
    pub datctype: Option<Vec<u8>>,
}

/// A database cache entry.
#[derive(Clone, Debug)]
pub struct ODatabase {
    pub data_version: u16,
    pub encoding: i32,
    pub datlocprovider: u8,
    pub datlocale: Option<Vec<u8>>,
    pub daticurules: Option<Vec<u8>>,
    pub datcollate: Option<Vec<u8>>,
    pub datctype: Option<Vec<u8>>,
}

/// Builds the cache entry of a database from its catalog row, stamped with
/// the system tree version.
pub fn o_database_cache_fill_entry(row: DatabaseRow, sys_tree_version: u16) -> (e: ODatabase)
    ensures
        e.data_version == sys_tree_version,
        e.encoding == row.encoding,
        e.datlocprovider == row.datlocprovider,
        e.datlocale == row.datlocale,
        e.daticurules == row.daticurules,
        e.datcollate == row.datcollate,
        e.datctype == row.datctype,
{
    ODatabase {
        data_version: sys_tree_version,
        encoding: row.encoding,
        datlocprovider: row.datlocprovider,
        datlocale: row.datlocale,
        daticurules: row.daticurules,
        datcollate: row.datcollate,
        datctype: row.datctype,
    }
}

/// The database encoding given the cached entry of the template database:
/// its encoding when there is an entry, `SQL_ASCII` otherwise.
pub fn o_database_cache_get_database_encoding(entry: Option<&ODatabase>) -> (r: i32)
    ensures
        r == (match entry {
            Some(d) => d.encoding,
            None => PG_SQL_ASCII,
        }),
{
    match entry {
        Some(d) => d.encoding,
        None => PG_SQL_ASCII,
    }
}

/// The collation locale to install from the cached entry of the template
/// database: its `LC_COLLATE` setting when there is an entry that has one.
pub fn o_database_cache_lc_collate(entry: Option<&ODatabase>) -> (r: Option<&Vec<u8>>)
    ensures
        r == (match entry {
            Some(d) => match &d.datcollate {
                Some(c) => Some(c),
                None => None,
            },
            None => None,
        }),
{
    match entry {
        Some(d) => match &d.datcollate {
            Some(c) => Some(c),
            None => None,
        },
        None => None,
    }
}

/// The fixed fields at the start of a stored database entry.
#[derive(Clone, Copy, Debug, PartialEq, Eq, Structural)]
pub struct ODatabaseHeader {
    pub data_version: u16,
    pub encoding: i32,
    pub datlocprovider: u8,
}

/// Why a stored database entry cannot be converted.
#[derive(Clone, Copy, Debug, PartialEq, Eq, Structural)]
pub enum DatabaseEntryError {
    /// The entry was written under another system tree version.
    UnsupportedVersion { found: u16, expected: u16 },
}

/// The four strings of a database entry, in the order they are stored:
/// locale, ICU rules, `LC_COLLATE`, `LC_CTYPE`.
pub type DatabaseStrings = (Option<Vec<u8>>, Option<Vec<u8>>, Option<Vec<u8>>, Option<Vec<u8>>);

/// The fixed fields of an entry.
pub open spec fn database_header(e: ODatabase) -> ODatabaseHeader {
    ODatabaseHeader { data_version: e.data_version, encoding: e.encoding, datlocprovider: e.datlocprovider }
}

/// What storing an entry gives: its strings in order, when the entry has
/// the current version; the version error otherwise.
pub open spec fn spec_serialize_fields(e: ODatabase, sys_tree_version: u16) -> Result<
    DatabaseStrings,
    DatabaseEntryError,
> {
    if e.data_version != sys_tree_version {
        Err(DatabaseEntryError::UnsupportedVersion { found: e.data_version, expected: sys_tree_version })
    } else {
        Ok((e.datlocale, e.daticurules, e.datcollate, e.datctype))
    }
}

/// What reading a stored entry gives: the entry, when the header has the
/// current version; the version error otherwise.
pub open spec fn spec_deserialize_fields(h: ODatabaseHeader, s: DatabaseStrings, sys_tree_version: u16) -> Result<
    ODatabase,
    DatabaseEntryError,
> {
    if h.data_version != sys_tree_version {
        Err(DatabaseEntryError::UnsupportedVersion { found: h.data_version, expected: sys_tree_version })
    } else {
        Ok(
            ODatabase {
                data_version: h.data_version,
                encoding: h.encoding,
                datlocprovider: h.datlocprovider,
                datlocale: s.0,
                daticurules: s.1,
                datcollate: s.2,
                datctype: s.3,
            },
        )
    }
}

/// Checks the version of an entry about to be stored and gives its strings
/// in the order they are stored.
pub fn o_database_cache_serialize_fields(e: ODatabase, sys_tree_version: u16) -> (r: Result<
    DatabaseStrings,
    DatabaseEntryError,
>)
    ensures
        r == spec_serialize_fields(e, sys_tree_version),
{
    if e.data_version != sys_tree_version {
        Err(DatabaseEntryError::UnsupportedVersion { found: e.data_version, expected: sys_tree_version })
    } else {
        Ok((e.datlocale, e.daticurules, e.datcollate, e.datctype))
    }
}

/// Whether reading a stored entry goes on with another string, after
/// `read` strings have been read and `consumed` of its `length` bytes used:
/// the locale and the ICU rules are always there; `LC_COLLATE` and
/// `LC_CTYPE` follow only while bytes remain.
pub fn o_database_cache_reads_next_string(read: usize, consumed: usize, length: usize) -> (r: bool)
    ensures
        r == (read < 2 || (read < 4 && consumed != length)),
{
    read < 2 || (read < 4 && consumed != length)
}

/// Rebuilds a stored entry from its fixed fields and the strings read (a
/// string that was not stored is `None`), checking the version.
pub fn o_database_cache_deserialize_fields(h: ODatabaseHeader, s: DatabaseStrings, sys_tree_version: u16) -> (r:
    Result<ODatabase, DatabaseEntryError>)
    ensures
        r == spec_deserialize_fields(h, s, sys_tree_version),
{
    if h.data_version != sys_tree_version {
        Err(DatabaseEntryError::UnsupportedVersion { found: h.data_version, expected: sys_tree_version })
    } else {
        Ok(
            ODatabase {
                data_version: h.data_version,
                encoding: h.encoding,
                datlocprovider: h.datlocprovider,
                datlocale: s.0,
                daticurules: s.1,
                datcollate: s.2,
                datctype: s.3,
            },
        )
    }
}

/// Storing an entry of the current version and reading it back gives the
/// entry; an entry of another version is refused both ways.
pub proof fn lemma_database_entry_roundtrip(e: ODatabase, sys_tree_version: u16)
    ensures
        e.data_version == sys_tree_version ==> (spec_serialize_fields(e, sys_tree_version) matches Ok(
            s,
        ) && spec_deserialize_fields(database_header(e), s, sys_tree_version) == Ok::<
            ODatabase,
            DatabaseEntryError,
        >(e)),
        e.data_version != sys_tree_version ==> spec_serialize_fields(e, sys_tree_version) is Err
            && spec_deserialize_fields(database_header(e), (None, None, None, None), sys_tree_version) is Err,
{
}

} // verus!
