# fpm

A package manager's core logic, verified with Verus.

- `src/compat` — reading foreign packages (`.deb`, `.apk`, Arch `.pkg.tar.*`, `.rpm`)
  into one package description, and rendering it as an fpkg manifest.
- `src/transaction` — the on-disk layout, install plans, generations and the
  begin / commit / rollback decisions of a transaction.
- `src/build` — build recipes, build and signing commands, checksums and the
  Merkle root of a package's contents, and the `.fpkg` index.
- `src/db` — the records kept in the package databases and the rules around them.
- `src/text.rs` — the text handling the parsers and renderers share.
- `app/` — the programs (`fconv`, `fpkg-build`, `fpkg-db`, `fpm-db`): files,
  processes, SQLite, TOML and JSON around the library.

The outside crates that decode archives, hash, and read RPM headers are called
from `src/` through small trusted wrappers whose contracts are stated beside them.
