//! Cached metadata of collations.
//!
//! The server's catalog row of a collation is read by the caller; the entry
//! kept in the collation cache is built here, after checking that the
//! collation is one OrioleDB tables support.
use vstd::prelude::*;

verus! {

/// Collation provider code of ICU collations (`'i'`).
pub const COLLPROVIDER_ICU: u8 = 105;

/// OID of the database's default collation.
pub const DEFAULT_COLLATION_OID: u32 = 100;

/// The values of a collation's catalog row that the cache keeps, and the
/// locale facts that decide whether it is supported.
#[derive(Clone, Debug)]
pub struct CollationRow {
    /// OID of the collation.
    pub colloid: u32,
    /// Collation name (a fixed-size, zero-padded name).
    pub collname: [u8; 64],
    /// Provider code.
    pub collprovider: u8,
    /// Whether the collation is deterministic.
    pub collisdeterministic: bool,
    /// `LC_COLLATE` setting, when present.
    pub collcollate: Option<Vec<u8>>,
    /// `LC_CTYPE` setting, when present.
    pub collctype: Option<Vec<u8>>,
    /// ICU locale, when present.
    pub colliculocale: Option<Vec<u8>>,
    /// ICU rules, when present.
    pub collicurules: Option<Vec<u8>>,
    /// Provider version, when present.
    pub collversion: Option<Vec<u8>>,
    /// The collation sorts as the C locale.
    pub collate_is_c: bool,
    /// Provider of the locale of the default collation, when it has one.
    pub default_locale_provider: Option<u8>,
}

/// A collation cache entry.
#[derive(Clone, Debug)]
pub struct OCollation {
    pub data_version: u16,
    pub collprovider: u8,
    pub collisdeterministic: bool,
    pub collname: [u8; 64],
    pub collcollate: Option<Vec<u8>>,
    pub collctype: Option<Vec<u8>>,
    pub colliculocale: Option<Vec<u8>>,
    pub collicurules: Option<Vec<u8>>,
    pub collversion: Option<Vec<u8>>,
}

/// Why a collation cannot be cached.
#[derive(Clone, Copy, Debug, PartialEq, Eq, Structural)]
pub enum CollationError {
    /// Only C, POSIX and ICU collations are supported for OrioleDB tables.
    Unsupported { colloid: u32 },
}

/// A collation is supported when it is an ICU collation, when it sorts as
/// the C locale, or when it is the default collation and the default locale
/// is an ICU one.
pub open spec fn collation_supported(row: CollationRow) -> bool {
    row.collprovider == COLLPROVIDER_ICU || row.collate_is_c || (row.colloid
        == DEFAULT_COLLATION_OID && row.default_locale_provider == Some(COLLPROVIDER_ICU))
}

/// Which collations are accepted: every collation that sorts as the C locale
/// (C, POSIX) and every ICU collation, whatever its OID; a libc collation
/// that does not sort as C and is not the default collation is refused.
pub proof fn lemma_collation_acceptance(row: CollationRow)
    ensures
        row.collate_is_c ==> collation_supported(row),
        row.collprovider == COLLPROVIDER_ICU ==> collation_supported(row),
        row.collprovider != COLLPROVIDER_ICU && !row.collate_is_c && row.colloid
            != DEFAULT_COLLATION_OID ==> !collation_supported(row),
{
}

/// Builds the cache entry of a collation from its catalog row, stamped with
/// the system tree version; refuses unsupported collations.
pub fn o_collation_cache_fill_entry(row: CollationRow, sys_tree_version: u16) -> (r: Result<
    OCollation,
    CollationError,
>)
    ensures
        !collation_supported(row) ==> r == Err::<OCollation, CollationError>(
            CollationError::Unsupported { colloid: row.colloid },
        ),
        collation_supported(row) ==> (r matches Ok(e) && e.data_version == sys_tree_version
            && e.collprovider == row.collprovider && e.collisdeterministic
            == row.collisdeterministic && e.collname == row.collname && e.collcollate
            == row.collcollate && e.collctype == row.collctype && e.colliculocale
            == row.colliculocale && e.collicurules == row.collicurules && e.collversion
            == row.collversion),
        row.collate_is_c || row.collprovider == COLLPROVIDER_ICU ==> r is Ok,
        r is Err ==> !row.collate_is_c && row.collprovider != COLLPROVIDER_ICU,
{
    proof {
        lemma_collation_acceptance(row);
    }
    let valid = row.collprovider == COLLPROVIDER_ICU || row.collate_is_c || (row.colloid
        == DEFAULT_COLLATION_OID && match row.default_locale_provider {
        Some(p) => p == COLLPROVIDER_ICU,
        None => false,
    });
    if !valid {
        return Err(CollationError::Unsupported { colloid: row.colloid });
    }
    Ok(
        OCollation {
            data_version: sys_tree_version,
            collprovider: row.collprovider,
            collisdeterministic: row.collisdeterministic,
            collname: row.collname,
            collcollate: row.collcollate,
            collctype: row.collctype,
            colliculocale: row.colliculocale,
            collicurules: row.collicurules,
            collversion: row.collversion,
        },
    )
}

} // verus!
