//! Conversion of foreign package formats (`.deb`, `.rpm`, `.apk`, Arch
//! `.pkg.tar.*`) into the package description that `.fpkg` manifests are written from.

pub mod archive;
pub mod error;
pub mod convert;
pub mod deb;
pub mod pkginfo;
pub mod apk;
pub mod arch;
pub mod rpm;
