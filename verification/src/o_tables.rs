//! Walking the tables of the `o_tables` system tree.
//!
//! The tree stores each table as chunks keyed by the table's oids and a
//! chunk number, ordered by database, relation node and chunk number.  A
//! walk visits each table once: it looks up the first chunk at or after a
//! bound, visits that chunk's oids, and moves the bound past the table.
use crate::types::ORelOids;
use vstd::prelude::*;

verus! {

/// Key of a chunk of a table in the `o_tables` tree.
#[derive(Clone, Copy, Debug, PartialEq, Eq, Structural)]
pub struct OTableChunkKey {
    /// The table's oids.
    pub oids: ORelOids,
    /// Number of the chunk within the table's serialized description.
    pub chunknum: u32,
}

/// Order of chunk keys: by database, then relation node, then chunk number
/// (the relation oid takes no part).  Negative, zero or positive.
pub open spec fn spec_chunk_key_order(a: OTableChunkKey, b: OTableChunkKey) -> int {
    if a.oids.datoid < b.oids.datoid {
        -1
    } else if a.oids.datoid > b.oids.datoid {
        1
    } else if a.oids.relnode < b.oids.relnode {
        -1
    } else if a.oids.relnode > b.oids.relnode {
        1
    } else if a.chunknum < b.chunknum {
        -1
    } else if a.chunknum > b.chunknum {
        1
    } else {
        0
    }
}

/// `a` comes strictly before `b`.
pub open spec fn chunk_key_lt(a: OTableChunkKey, b: OTableChunkKey) -> bool {
    spec_chunk_key_order(a, b) < 0
}

/// Compares two chunk keys by database, relation node and chunk number.
pub fn o_table_chunk_cmp(key1: &OTableChunkKey, key2: &OTableChunkKey) -> (r: i32)
    ensures
        r == spec_chunk_key_order(*key1, *key2),
{
    if key1.oids.datoid < key2.oids.datoid {
        return -1;
    } else if key1.oids.datoid > key2.oids.datoid {
        return 1;
    }
    if key1.oids.relnode < key2.oids.relnode {
        return -1;
    } else if key1.oids.relnode > key2.oids.relnode {
        return 1;
    }
    if key1.chunknum < key2.chunknum {
        return -1;
    } else if key1.chunknum > key2.chunknum {
        return 1;
    }
    0
}

/// The chunk-key order is a strict total order on (database, relation
/// node, chunk number): antisymmetric, transitive, and zero only on equal
/// triples.
pub proof fn lemma_chunk_key_order_laws(a: OTableChunkKey, b: OTableChunkKey, c: OTableChunkKey)
    ensures
        spec_chunk_key_order(a, b) == -spec_chunk_key_order(b, a),
        spec_chunk_key_order(a, b) == 0 <==> (a.oids.datoid == b.oids.datoid && a.oids.relnode
            == b.oids.relnode && a.chunknum == b.chunknum),
        chunk_key_lt(a, b) && chunk_key_lt(b, c) ==> chunk_key_lt(a, c),
{
}

/// Whether `a` comes strictly before `b` in tree order.
fn key_before(a: &OTableChunkKey, b: &OTableChunkKey) -> (r: bool)
    ensures
        r == chunk_key_lt(*a, *b),
{
    o_table_chunk_cmp(a, b) < 0
}

/// The bound a walk starts from: all zeros, before every key.
pub fn o_tables_foreach_start() -> (k: OTableChunkKey)
    ensures
        k == (OTableChunkKey {
            oids: ORelOids { datoid: 0, reloid: 0, relnode: 0 },
            chunknum: 0,
        }),
        forall|other: OTableChunkKey| !chunk_key_lt(other, k),
{
    OTableChunkKey { oids: ORelOids { datoid: 0, reloid: 0, relnode: 0 }, chunknum: 0 }
}

/// The bound after visiting a table: the same database, the next relation
/// node, chunk zero.
pub open spec fn spec_next_bound(oids: ORelOids) -> OTableChunkKey {
    OTableChunkKey {
        oids: ORelOids { relnode: (oids.relnode + 1) as u32, ..oids },
        chunknum: 0,
    }
}

/// What the walk does with the chunk found at or after the bound: `None`
/// when there is none (the walk ends); otherwise the oids to visit and the
/// next bound.
pub fn o_tables_foreach_step(found: Option<OTableChunkKey>) -> (r: Option<
    (ORelOids, OTableChunkKey),
>)
    requires
        found matches Some(k) ==> k.oids.relnode < u32::MAX && k.oids.spec_valid(),
    ensures
        found is None ==> r is None,
        found matches Some(k) ==> r == Some((k.oids, spec_next_bound(k.oids))),
{
    match found {
        None => None,
        Some(k) => {
            let oids = k.oids;
            let next = OTableChunkKey {
                oids: ORelOids { relnode: oids.relnode + 1, ..oids },
                chunknum: 0,
            };
            Some((oids, next))
        },
    }
}

/// The next bound comes after every chunk of the visited table and at or
/// before every chunk of every later table.
pub proof fn lemma_next_bound_skips_table(oids: ORelOids, k: OTableChunkKey)
    requires
        oids.relnode < u32::MAX,
    ensures
        (k.oids.datoid == oids.datoid && k.oids.relnode == oids.relnode) ==> chunk_key_lt(
            k,
            spec_next_bound(oids),
        ),
        (k.oids.datoid > oids.datoid || (k.oids.datoid == oids.datoid && k.oids.relnode
            > oids.relnode)) ==> !chunk_key_lt(k, spec_next_bound(oids)),
{
}

/// The keys are in strictly increasing order.
pub open spec fn keys_sorted(keys: Seq<OTableChunkKey>) -> bool {
    forall|i: int, j: int| 0 <= i < j < keys.len() ==> chunk_key_lt(#[trigger] keys[i], #[trigger] keys[j])
}

/// Key `i` is the first chunk of its table (the previous key, if any,
/// belongs to another table).
pub open spec fn starts_table(keys: Seq<OTableChunkKey>, i: int) -> bool {
    i == 0 || keys[i - 1].oids.datoid != keys[i].oids.datoid || keys[i - 1].oids.relnode
        != keys[i].oids.relnode
}

/// The oids of the first chunk of each table among the first `n` keys, in
/// key order.
pub open spec fn tables_visited(keys: Seq<OTableChunkKey>, n: int) -> Seq<ORelOids>
    decreases n,
{
    if n <= 0 {
        Seq::empty()
    } else if starts_table(keys, n - 1) {
        tables_visited(keys, n - 1).push(keys[n - 1].oids)
    } else {
        tables_visited(keys, n - 1)
    }
}

/// Walks the tables of an `o_tables` tree whose chunk keys, in tree order,
/// are `keys`: starting from the zero bound, each step looks up the first
/// key at or after the bound, visits its oids and moves the bound past its
/// table.  Returns the oids visited, in order: one per table, taken from the
/// table's first chunk.  Every key of the tree names a valid table, so
/// every oids visited is valid.
pub fn o_tables_foreach_oids(keys: &[OTableChunkKey]) -> (visited: Vec<ORelOids>)
    requires
        keys_sorted(keys@),
        forall|i: int| 0 <= i < keys@.len() ==> (#[trigger] keys@[i]).oids.relnode < u32::MAX,
        forall|i: int| 0 <= i < keys@.len() ==> (#[trigger] keys@[i]).oids.spec_valid(),
    ensures
        visited@ == tables_visited(keys@, keys@.len() as int),
        forall|j: int| 0 <= j < visited@.len() ==> (#[trigger] visited@[j]).spec_valid(),
        forall|i: int|
            0 <= i < keys@.len() && (i == 0 || keys@[i - 1].oids.datoid != keys@[i].oids.datoid
                || keys@[i - 1].oids.relnode != keys@[i].oids.relnode) ==> visited@.contains(
                #[trigger] keys@[i].oids,
            ),
{
    let mut visited: Vec<ORelOids> = Vec::new();
    let mut bound = o_tables_foreach_start();
    let mut pos: usize = 0;
    proof {
        assert(keys@.len() > 0 ==> starts_table(keys@, 0));
    }
    while pos < keys.len()
        invariant
            pos <= keys@.len(),
            keys_sorted(keys@),
            forall|i: int| 0 <= i < keys@.len() ==> (#[trigger] keys@[i]).oids.relnode < u32::MAX,
            forall|i: int| 0 <= i < keys@.len() ==> (#[trigger] keys@[i]).oids.spec_valid(),
            pos < keys@.len() ==> starts_table(keys@, pos as int),
            visited@ == tables_visited(keys@, pos as int),
            forall|j: int| 0 <= j < visited@.len() ==> (#[trigger] visited@[j]).spec_valid(),
        decreases keys@.len() - pos,
    {
        let step = o_tables_foreach_step(Some(keys[pos]));
        let (oids, next) = match step {
            Some(s) => s,
            None => {
                return visited;
            },
        };
        let ghost start = pos as int;
        visited.push(oids);
        bound = next;
        pos = pos + 1;
        assert(visited@ == tables_visited(keys@, pos as int));
        while pos < keys.len() && key_before(&keys[pos], &bound)
            invariant
                0 <= start < pos <= keys@.len(),
                keys_sorted(keys@),
                bound == spec_next_bound(keys@[start].oids),
                keys@[pos - 1].oids.datoid == keys@[start].oids.datoid,
                keys@[pos - 1].oids.relnode == keys@[start].oids.relnode,
                keys@[start].oids.relnode < u32::MAX,
                visited@ == tables_visited(keys@, pos as int),
                forall|j: int| 0 <= j < visited@.len() ==> (#[trigger] visited@[j]).spec_valid(),
            decreases keys@.len() - pos,
        {
            proof {
                let k = keys@[pos as int];
                assert(chunk_key_lt(keys@[start], k));
                assert(k.oids.datoid == keys@[pos - 1].oids.datoid && k.oids.relnode
                    == keys@[pos - 1].oids.relnode) by {
                    if pos - 1 > start {
                        assert(chunk_key_lt(keys@[start], keys@[pos - 1]));
                        assert(chunk_key_lt(keys@[pos - 1], k));
                    }
                }
                assert(!starts_table(keys@, pos as int));
                assert(k.oids.datoid == keys@[start].oids.datoid);
            }
            pos = pos + 1;
        }
        proof {
            if pos < keys@.len() {
                let k = keys@[pos as int];
                assert(!chunk_key_lt(k, bound));
                assert(starts_table(keys@, pos as int));
            }
        }
    }
    proof {
        assert forall|i: int|
            0 <= i < keys@.len() && (i == 0 || keys@[i - 1].oids.datoid != keys@[i].oids.datoid
                || keys@[i - 1].oids.relnode != keys@[i].oids.relnode) implies visited@.contains(
            #[trigger] keys@[i].oids,
        ) by {
            lemma_foreach_visits_every_table(keys@, keys@.len() as int, i);
        }
    }
    visited
}

/// `x` is the oids of the first chunk of a table among the first `n` keys.
pub open spec fn is_table_start_oids(keys: Seq<OTableChunkKey>, n: int, x: ORelOids) -> bool {
    exists|i: int| 0 <= i < n && starts_table(keys, i) && #[trigger] keys[i].oids == x
}

/// Each table is visited once: the visited oids belong to tables in
/// strictly increasing (database, relation node) order, and each is the
/// oids of a table's first chunk.
pub proof fn lemma_foreach_visits_tables_in_order(keys: Seq<OTableChunkKey>, n: int)
    requires
        keys_sorted(keys),
        0 <= n <= keys.len(),
    ensures
        forall|a: int, b: int|
            0 <= a < b < tables_visited(keys, n).len() ==> {
                let x = #[trigger] tables_visited(keys, n)[a];
                let y = #[trigger] tables_visited(keys, n)[b];
                x.datoid < y.datoid || (x.datoid == y.datoid && x.relnode < y.relnode)
            },
        forall|a: int|
            0 <= a < tables_visited(keys, n).len() ==> is_table_start_oids(
                keys,
                n,
                #[trigger] tables_visited(keys, n)[a],
            ),
    decreases n,
{
    if n > 0 {
        lemma_foreach_visits_tables_in_order(keys, n - 1);
        let prev = tables_visited(keys, n - 1);
        let cur = tables_visited(keys, n);
        if starts_table(keys, n - 1) {
            assert(cur == prev.push(keys[n - 1].oids));
            assert forall|a: int, b: int| 0 <= a < b < cur.len() implies {
                let x = #[trigger] cur[a];
                let y = #[trigger] cur[b];
                x.datoid < y.datoid || (x.datoid == y.datoid && x.relnode < y.relnode)
            } by {
                if b == cur.len() - 1 {
                    assert(cur[a] == prev[a]);
                    assert(is_table_start_oids(keys, n - 1, prev[a]));
                    let i = choose|i: int|
                        0 <= i < n - 1 && starts_table(keys, i) && #[trigger] keys[i].oids
                            == prev[a];
                    assert(chunk_key_lt(keys[i], keys[n - 1]));
                    if i < n - 2 {
                        assert(chunk_key_lt(keys[i], keys[n - 2]));
                        assert(chunk_key_lt(keys[n - 2], keys[n - 1]));
                    }
                } else {
                    assert(cur[a] == prev[a]);
                    assert(cur[b] == prev[b]);
                }
            }
            assert forall|a: int| 0 <= a < cur.len() implies is_table_start_oids(
                keys,
                n,
                #[trigger] cur[a],
            ) by {
                if a == cur.len() - 1 {
                    assert(starts_table(keys, n - 1) && keys[n - 1].oids == cur[a]);
                } else {
                    assert(cur[a] == prev[a]);
                    assert(is_table_start_oids(keys, n - 1, prev[a]));
                    let i = choose|i: int|
                        0 <= i < n - 1 && starts_table(keys, i) && #[trigger] keys[i].oids
                            == prev[a];
                    assert(0 <= i < n && starts_table(keys, i) && keys[i].oids == cur[a]);
                }
            }
        } else {
            assert(cur == prev);
            assert forall|a: int| 0 <= a < cur.len() implies is_table_start_oids(
                keys,
                n,
                #[trigger] cur[a],
            ) by {
                assert(is_table_start_oids(keys, n - 1, prev[a]));
                let i = choose|i: int|
                    0 <= i < n - 1 && starts_table(keys, i) && #[trigger] keys[i].oids == prev[a];
                assert(0 <= i < n && starts_table(keys, i) && keys[i].oids == cur[a]);
            }
        }
    }
}

/// The walk is complete: every key whose database or relation node differs
/// from those of the key before it (or that comes first) has its oids
/// visited.  Keys of two databases are two tables even when their relation
/// nodes are equal.
pub proof fn lemma_foreach_visits_every_table(keys: Seq<OTableChunkKey>, n: int, i: int)
    requires
        0 <= i < n <= keys.len(),
        i == 0 || keys[i - 1].oids.datoid != keys[i].oids.datoid || keys[i - 1].oids.relnode
            != keys[i].oids.relnode,
    ensures
        tables_visited(keys, n).contains(keys[i].oids),
    decreases n,
{
    if i == n - 1 {
        assert(starts_table(keys, n - 1));
        let v = tables_visited(keys, n);
        assert(v == tables_visited(keys, n - 1).push(keys[n - 1].oids));
        assert(v[v.len() - 1] == keys[i].oids);
    } else {
        lemma_foreach_visits_every_table(keys, n - 1, i);
        let prev = tables_visited(keys, n - 1);
        let j = choose|j: int| 0 <= j < prev.len() && prev[j] == keys[i].oids;
        if starts_table(keys, n - 1) {
            assert(tables_visited(keys, n)[j] == keys[i].oids);
        } else {
            assert(tables_visited(keys, n) == prev);
        }
    }
}

} // verus!
