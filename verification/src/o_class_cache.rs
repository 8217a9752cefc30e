//! Cached attribute descriptions of relations.
use vstd::prelude::*;

verus! {

/// The attribute fields the class cache keeps.
#[derive(Clone, Copy, Debug, PartialEq, Eq)]
pub struct PgAttribute {
    pub attrelid: u32,
    pub attname: [u8; 64],
    pub atttypid: u32,
    pub attlen: i16,
    pub attnum: i16,
    pub attndims: i16,
    pub atttypmod: i32,
    pub attbyval: bool,
    pub attstorage: u8,
    pub attalign: u8,
    pub attnotnull: bool,
    pub atthasdef: bool,
    pub atthasmissing: bool,
    pub attidentity: u8,
    pub attgenerated: u8,
    pub attisdropped: bool,
    pub attislocal: bool,
    pub attinhcount: i16,
    pub attcollation: u32,
}

/// A class cache entry: the relation's row type and its attributes.
#[derive(Clone, Debug)]
pub struct OClass {
    pub data_version: u16,
    pub reltype: u32,
    pub natts: i32,
    pub attrs: Vec<PgAttribute>,
}

/// Extra argument of a class cache fill: a column being dropped, and
/// whether an existing entry was refreshed.
#[derive(Clone, Copy, Debug, PartialEq, Eq, Structural)]
pub struct OClassArg {
    /// A column is being dropped.
    pub column_drop: bool,
    /// One-based number of the column being dropped.
    pub dropped: i32,
    /// Set when an existing entry was refreshed.
    pub found: bool,
}

/// Attribute `i` is the column being dropped.
pub open spec fn is_dropped_column(carg: Option<OClassArg>, i: int) -> bool {
    match carg {
        Some(a) => a.column_drop && a.dropped - 1 == i,
        None => false,
    }
}

/// The cached form of attribute `i`: the same fields, marked dropped when it
/// was dropped already or is the column being dropped.
pub open spec fn cached_attribute(a: PgAttribute, carg: Option<OClassArg>, i: int) -> PgAttribute {
    PgAttribute { attisdropped: a.attisdropped || is_dropped_column(carg, i), ..a }
}

/// Marking a cached attribute: with `dropped` one-based, exactly the
/// attribute at zero-based index `dropped - 1` becomes dropped when a column
/// is being dropped; every attribute keeps its other fields and its own
/// dropped mark.
pub proof fn lemma_dropped_column_marked(a: PgAttribute, carg: Option<OClassArg>, i: int)
    ensures
        cached_attribute(a, carg, i).attisdropped == (a.attisdropped || (carg matches Some(c)
            && c.column_drop && c.dropped == i + 1)),
        a.attisdropped ==> cached_attribute(a, carg, i).attisdropped,
        (PgAttribute { attisdropped: a.attisdropped, ..cached_attribute(a, carg, i) }) == a,
{
}

/// Fills a class cache entry from the relation's row type and attributes:
/// a new entry when there was none, the existing one refreshed otherwise.
/// Returns the entry and the argument, which records whether an existing
/// entry was refreshed.
pub fn o_class_cache_fill_entry(
    existing: Option<OClass>,
    reltype: u32,
    rel_attrs: Vec<PgAttribute>,
    carg: Option<OClassArg>,
    sys_tree_version: u16,
) -> (r: (OClass, Option<OClassArg>))
    requires
        rel_attrs@.len() <= i32::MAX,
        existing is Some ==> carg is Some,
    ensures
        r.0.data_version == sys_tree_version,
        r.0.reltype == reltype,
        r.0.natts == rel_attrs@.len(),
        r.0.attrs@.len() == rel_attrs@.len(),
        forall|i: int|
            0 <= i < rel_attrs@.len() ==> #[trigger] r.0.attrs@[i] == cached_attribute(
                rel_attrs@[i],
                carg,
                i,
            ),
        r.1 == (match carg {
            Some(a) => Some(OClassArg { found: a.found || existing is Some, ..a }),
            None => None,
        }),
        forall|i: int|
            0 <= i < rel_attrs@.len() ==> (#[trigger] r.0.attrs@[i]).attisdropped == (
            rel_attrs@[i].attisdropped || (carg matches Some(c) && c.column_drop && c.dropped
                == i + 1)),
        forall|i: int|
            0 <= i < rel_attrs@.len() ==> (PgAttribute {
                attisdropped: rel_attrs@[i].attisdropped,
                ..#[trigger] r.0.attrs@[i]
            }) == rel_attrs@[i],
{
    let was_existing = existing.is_some();
    let mut attrs = rel_attrs;
    let n = attrs.len();
    let mut i: usize = 0;
    while i < n
        invariant
            i <= n,
            n == attrs@.len(),
            n == rel_attrs@.len(),
            n <= i32::MAX,
            forall|k: int| 0 <= k < i ==> #[trigger] attrs@[k] == cached_attribute(rel_attrs@[k], carg, k),
            forall|k: int| i <= k < n ==> #[trigger] attrs@[k] == rel_attrs@[k],
        decreases n - i,
    {
        let a = attrs[i];
        let dropped_now = match carg {
            Some(c) => c.column_drop && (c.dropped as i64) - 1 == (i as i64),
            None => false,
        };
        attrs.set(i, PgAttribute { attisdropped: a.attisdropped || dropped_now, ..a });
        i = i + 1;
    }
    proof {
        assert forall|i: int| 0 <= i < rel_attrs@.len() implies (#[trigger] attrs@[i]).attisdropped
            == (rel_attrs@[i].attisdropped || (carg matches Some(c) && c.column_drop && c.dropped
            == i + 1)) by {
            lemma_dropped_column_marked(rel_attrs@[i], carg, i);
        }
    }
    let new_arg = match carg {
        Some(c) => Some(OClassArg { found: c.found || was_existing, ..c }),
        None => None,
    };
    (OClass { data_version: sys_tree_version, reltype, natts: n as i32, attrs }, new_arg)
}

} // verus!
