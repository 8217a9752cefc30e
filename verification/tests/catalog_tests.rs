use orioledb::o_tables::{
    o_table_chunk_cmp, o_tables_foreach_oids, o_tables_foreach_start, o_tables_foreach_step,
    OTableChunkKey,
};
use orioledb::o_tablespace_cache::{o_get_prefixes_for_tablespace, o_tablespace_or_default};
use orioledb::sys_trees::{check_tree_num_input, SysTreesError, SYS_TREES_NUM};
use orioledb::types::ORelOids;

fn key(datoid: u32, reloid: u32, relnode: u32, chunknum: u32) -> OTableChunkKey {
    OTableChunkKey { oids: ORelOids { datoid, reloid, relnode }, chunknum }
}

#[test]
fn chunk_key_order() {
    assert_eq!(o_table_chunk_cmp(&key(1, 5, 2, 0), &key(1, 9, 2, 0)), 0);
    assert_eq!(o_table_chunk_cmp(&key(1, 5, 2, 0), &key(2, 0, 0, 0)), -1);
    assert_eq!(o_table_chunk_cmp(&key(1, 5, 3, 0), &key(1, 5, 2, 7)), 1);
    assert_eq!(o_table_chunk_cmp(&key(1, 5, 3, 1), &key(1, 5, 3, 2)), -1);
}

#[test]
fn foreach_visits_each_table_once() {
    let keys = vec![
        key(1, 10, 100, 0),
        key(1, 10, 100, 1),
        key(1, 10, 100, 2),
        key(1, 11, 101, 0),
        key(2, 12, 50, 0),
        key(2, 12, 50, 1),
    ];
    let visited = o_tables_foreach_oids(&keys);
    assert_eq!(
        visited,
        vec![
            ORelOids { datoid: 1, reloid: 10, relnode: 100 },
            ORelOids { datoid: 1, reloid: 11, relnode: 101 },
            ORelOids { datoid: 2, reloid: 12, relnode: 50 },
        ]
    );
    assert!(o_tables_foreach_oids(&[]).is_empty());
}

#[test]
fn foreach_steps() {
    assert_eq!(o_tables_foreach_start(), key(0, 0, 0, 0));
    assert_eq!(o_tables_foreach_step(None), None);
    assert_eq!(
        o_tables_foreach_step(Some(key(3, 4, 5, 6))),
        Some((ORelOids { datoid: 3, reloid: 4, relnode: 5 }, key(3, 4, 6, 0)))
    );
}

#[test]
fn tree_num_input_range() {
    assert_eq!(check_tree_num_input(1), Ok(()));
    assert_eq!(check_tree_num_input(SYS_TREES_NUM), Ok(()));
    assert_eq!(check_tree_num_input(0), Err(SysTreesError::InvalidTreeNum { num: 0 }));
    assert_eq!(check_tree_num_input(24), Err(SysTreesError::InvalidTreeNum { num: 24 }));
    assert_eq!(check_tree_num_input(-3), Err(SysTreesError::InvalidTreeNum { num: -3 }));
}

#[test]
fn tablespace_prefixes() {
    assert_eq!(o_tablespace_or_default(0), 1663);
    assert_eq!(o_tablespace_or_default(16400), 16400);
    let (prefix, db) = o_get_prefixes_for_tablespace(5, b"");
    assert_eq!(prefix, b"orioledb_data".to_vec());
    assert_eq!(db, b"orioledb_data/5".to_vec());
    let (prefix, db) = o_get_prefixes_for_tablespace(16384, b"/mnt/ts");
    assert_eq!(prefix, b"/mnt/ts//orioledb_data".to_vec());
    assert_eq!(db, b"/mnt/ts//orioledb_data/16384".to_vec());
    let (_, db) = o_get_prefixes_for_tablespace(0, b"x");
    assert_eq!(db, b"x//orioledb_data/0".to_vec());
}

use orioledb::o_amproc_cache::{
    o_amproc_cache_htup_values, o_amproc_cache_key, o_amproc_cache_tup_print, OAmProc, OAmProcKey,
};
use orioledb::o_sys_cache::OSysCacheKey1;

fn amproc_key(num: i16) -> OAmProcKey {
    OAmProcKey { amprocfamily: 1976, amproclefttype: 23, amprocrighttype: 20, amprocnum: num }
}

#[test]
fn sys_cache_key_holds_database_and_lsn() {
    let k = OSysCacheKey1::new(5, 0x1000, 1);
    assert_eq!(k.common.datoid, 5);
    assert_eq!(k.common.lsn, 0x1000);
    assert!(!k.common.deleted);
    assert_eq!(k.common.data_length, 0);
    assert_eq!(k.keys, [1]);
}

#[test]
fn amproc_key_widens_procedure_number_with_sign() {
    let k = o_amproc_cache_key(3, 77, amproc_key(2));
    assert_eq!(k.keys, [1976, 23, 20, 2]);
    assert_eq!(k.common.datoid, 3);
    assert_eq!(k.common.lsn, 77);
    let k = o_amproc_cache_key(3, 77, amproc_key(-1));
    assert_eq!(k.keys[3], u64::MAX);
}

#[test]
fn amproc_htup_fills_only_the_procedure() {
    let e = OAmProc { key: amproc_key(1), amproc: 351 };
    assert_eq!(o_amproc_cache_htup_values(Some(&e)), Some(vec![0, 0, 0, 0, 0, 351]));
    assert_eq!(o_amproc_cache_htup_values(None), None);
}

#[test]
fn amproc_tup_print_wraps_key_and_procedure() {
    let e = OAmProc { key: amproc_key(1), amproc: 351 };
    let mut buf = b"x".to_vec();
    o_amproc_cache_tup_print(&mut buf, b"key", &e);
    assert_eq!(buf, b"x(key, amproc: 351)".to_vec());
}

use orioledb::o_database_cache::{
    o_database_cache_deserialize_fields, o_database_cache_reads_next_string,
    o_database_cache_serialize_fields, DatabaseEntryError, ODatabase, ODatabaseHeader,
};

fn sample_database(version: u16) -> ODatabase {
    ODatabase {
        data_version: version,
        encoding: 6,
        datlocprovider: b'c',
        datlocale: None,
        daticurules: Some(b"&a<b".to_vec()),
        datcollate: Some(b"C.UTF-8".to_vec()),
        datctype: Some(b"C.UTF-8".to_vec()),
    }
}

#[test]
fn database_entry_round_trip() {
    let e = sample_database(7);
    let s = o_database_cache_serialize_fields(e.clone(), 7).unwrap();
    assert_eq!(s.1, Some(b"&a<b".to_vec()));
    let h = ODatabaseHeader { data_version: 7, encoding: 6, datlocprovider: b'c' };
    let back = o_database_cache_deserialize_fields(h, s, 7).unwrap();
    assert_eq!(back.encoding, 6);
    assert_eq!(back.datcollate, e.datcollate);
    assert_eq!(back.datctype, e.datctype);
    assert_eq!(back.datlocale, None);
}

#[test]
fn database_entry_version_mismatch() {
    assert!(matches!(
        o_database_cache_serialize_fields(sample_database(6), 7),
        Err(DatabaseEntryError::UnsupportedVersion { found: 6, expected: 7 })
    ));
    let h = ODatabaseHeader { data_version: 8, encoding: 6, datlocprovider: b'c' };
    assert!(matches!(
        o_database_cache_deserialize_fields(h, (None, None, None, None), 7),
        Err(DatabaseEntryError::UnsupportedVersion { found: 8, expected: 7 })
    ));
}

#[test]
fn database_entry_optional_strings() {
    assert!(o_database_cache_reads_next_string(0, 40, 40));
    assert!(o_database_cache_reads_next_string(1, 40, 40));
    assert!(!o_database_cache_reads_next_string(2, 40, 40));
    assert!(o_database_cache_reads_next_string(2, 30, 40));
    assert!(o_database_cache_reads_next_string(3, 30, 40));
    assert!(!o_database_cache_reads_next_string(4, 30, 40));
}
