# orioledb

The verified core of the OrioleDB storage engine for PostgreSQL, written in
Verus.

- `src/` is the library. Every function there carries a contract that Verus
  proves: page-header and tuple-header bit fields (`types`), the structural
  checks of B-tree pages (`page_check`), CRC-32C (`crc32c`), the format of the
  checkpoint control file and its validation (`control`), the admission of
  concurrent writes (`io`), the walk over the table catalog (`o_tables`), and
  the builders of the system-cache entries (`o_*_cache`, `o_sys_cache`).
  Public proof functions state the laws that tie these together, such as
  reading back a control file that was just written.
- `tests/` runs the library on concrete values.
- `app/` is the PostgreSQL side: file I/O, shared memory, catalog lookups and
  error reports. It hands plain values to the library and acts on what comes
  back.
