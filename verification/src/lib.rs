//! Verified core of the OrioleDB storage engine: page-header bit fields,
//! B-tree page layout checks, the checkpoint control file format, CRC-32C,
//! I/O admission decisions and system-tree helpers.

pub mod types;
pub mod crc32c;
pub mod control;
pub mod page_check;
pub mod io;
pub mod o_tables;
pub mod sys_trees;
pub mod checkpoint;
pub mod btree;
pub mod iterator;
pub mod o_tablespace_cache;
pub mod o_collation_cache;
pub mod o_aggregate_cache;
pub mod o_class_cache;
pub mod o_database_cache;
pub mod o_range_cache;
pub mod o_opclass_cache;
pub mod o_amproc_cache;
pub mod o_sys_cache;
