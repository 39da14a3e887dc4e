# rusqlite (verified core)

A Verus-verified library holding the logic of an SQLite binding that does
not need the SQLite engine itself: the decisions the binding makes around
the C interface, proved against `requires`/`ensures` contracts.

Layout of `src/`:

- `codes` – the numeric constants of the SQLite C interface used here.
- `hooks` – decoding of update-hook actions and authorizer requests; the
  answers hooks hand back to SQLite.
- `pragma` – identifier checks, name quoting and `PRAGMA` statement text.
- `cache` – the prepared-statement LRU cache (over `hashlink::LruCache`).
- `connection` – the raw connection state, closing, open flags and the
  decoding of connection-level answers.
- `vec_db` – the `vec_db` in-memory file used for (de)serialization.
- `mem_file` – a growable byte buffer with separate length and capacity.
- `memfs` – the in-memory file system behind the `memvfs-rs` VFS.
- `vfs` – VFS helper types, the `xFileControl` dispatch, the decisions of
  the other VFS callbacks, and a read-only in-memory VFS (`memvfs`).
- `crypto` – the SQLCipher crypto provider over the RustCrypto crates.
- `session`, `trace`, `backup` – callback decisions of these interfaces.
- `macros` – what the `__bind!`/`__single!` macros check of SQL literals
  (over `sqlite3-parser`).
- `types` – SQLite values, `ToSql`/`FromSql` and their errors, with the
  conversions for paths, ULIDs and the `time` and `jiff` types.

`app/` holds the parts that speak C strings and `std::error::Error`.
