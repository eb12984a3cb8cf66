# sqlite_storage

An OpenMLS storage provider that keeps MLS group state in an SQLite table
keyed by user and storage key.

- `src/` is the verified library: storage keys (`keys`), entries that hold a
  JSON list of byte strings (`stored_list`), the outcome of reads once an
  entity has been decoded (`entity`), the JSON encodings obtained from
  `serde_json` (`json`), the table configuration (`tables`) and the error
  type (`error`).
- `app/` holds the database access through `sqlx` on the `tokio` runtime,
  the `serde` encoding of the OpenMLS entities, and the implementation of
  `openmls_traits::storage::StorageProvider` on top of the library.
- `tests/` exercises the library on concrete values.
