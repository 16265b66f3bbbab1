//! Building `.fpkg` packages from a `PKGBUILD.toml`: validation, the build commands,
//! the archive index and manifest, checksums and the Merkle root.

pub mod error;
pub mod pkgbuild;
pub mod checksums;
pub mod manifest;
pub mod package;
pub mod prepare;
pub mod runner;
pub mod packer;
pub mod sign;
pub mod builder;
