//! The `META/manifest.toml` of an `.fpkg`, as data.

use vstd::prelude::*;

verus! {

#[derive(Debug, Clone)]
pub struct ManifestSize {
    pub installed: u64,
    pub compressed: u64,
    pub delta_base: String,
}

#[derive(Debug, Clone)]
pub struct ManifestFlags {
    pub system_config: bool,
    pub has_services: bool,
    pub selinux_aware: bool,
    pub has_suid: bool,
}

#[derive(Debug, Clone)]
pub struct ManifestPackage {
    pub name: String,
    pub version: String,
    pub release: u32,
    pub arch: String,
    pub license: String,
    pub summary: String,
    pub description: String,
    pub homepage: String,
    pub source_url: String,
    pub maintainer: String,
    pub build_date: String,
    pub categories: Vec<String>,
    pub tags: Vec<String>,
    pub size: ManifestSize,
    pub flags: ManifestFlags,
}

#[derive(Debug, Clone)]
pub struct ManifestVerification {
    pub manifest_hash: String,
    pub content_tree: String,
    pub signature_algo: String,
}

#[derive(Debug, Clone)]
pub struct ManifestDependencies {
    pub requires: Vec<String>,
    pub suggests: Vec<String>,
    pub conflicts: Vec<String>,
    pub provides: Vec<String>,
    pub before: Vec<String>,
    pub after: Vec<String>,
}

#[derive(Debug, Clone)]
pub struct ManifestInstall {
    pub mode: String,
    pub config_files: Vec<String>,
    pub desktop_files: Vec<String>,
}

#[derive(Debug, Clone)]
pub struct ManifestRepository {
    pub origin_repo: String,
    pub origin_url: String,
    pub fetched_at: String,
}

#[derive(Debug, Clone)]
pub struct ManifestCompat {
    pub min_fpm_version: String,
    pub fpkg_format: String,
}

/// The whole manifest.
#[derive(Debug, Clone)]
pub struct Manifest {
    pub package: ManifestPackage,
    pub verification: ManifestVerification,
    pub dependencies: ManifestDependencies,
    pub install: ManifestInstall,
    pub repository: ManifestRepository,
    pub compat: ManifestCompat,
}

} // verus!
