//! The builder that turns a package description into an `.fpkg` in an output
//! directory.

use vstd::prelude::*;
use crate::text::{chars_of, ends_with, ends_with_str, owned, starts_with, starts_with_str, to_lowercase, unicode_lowercase, same_chars};
use crate::build::manifest::{
    Manifest, ManifestCompat, ManifestDependencies, ManifestFlags, ManifestInstall,
    ManifestPackage, ManifestRepository, ManifestSize, ManifestVerification,
};
use crate::build::package::{scripts_view, FpkgWriter};

verus! {

/// Builds packages into `output_dir`.
pub struct Builder {
    pub output_dir: String,
    pub verbose: bool,
}

/// The package description the builder works from.
#[derive(Debug, Clone)]
pub struct Recipe {
    pub package: RecipePackage,
    pub source: RecipeSource,
    pub build: RecipeScript,
    pub install: RecipeInstall,
    pub runtime: RecipeRuntime,
    pub scripts: PackageScripts,
    pub changelog: String,
}

/// What the package is.
#[derive(Debug, Clone)]
pub struct RecipePackage {
    pub name: String,
    pub version: String,
    pub release: u32,
    pub arch: String,
    pub license: String,
    pub summary: String,
    pub description: String,
    pub homepage: String,
    pub maintainer: String,
    pub categories: Vec<String>,
    pub tags: Vec<String>,
}

/// Where its sources come from: a URL (with an expected checksum) or a local path.
#[derive(Debug, Clone)]
pub struct RecipeSource {
    pub url: String,
    pub local: String,
    pub sha256: String,
}

/// A phase's shell script.
#[derive(Debug, Clone)]
pub struct RecipeScript {
    pub script: String,
}

/// The install phase: its script and how the package installs.
#[derive(Debug, Clone)]
pub struct RecipeInstall {
    pub script: String,
    pub mode: String,
    pub config_files: Vec<String>,
    pub desktop_files: Vec<String>,
}

/// The run-time relations of the package.
#[derive(Debug, Clone)]
pub struct RecipeRuntime {
    pub requires: Vec<String>,
    pub suggests: Vec<String>,
    pub conflicts: Vec<String>,
    pub provides: Vec<String>,
}

/// The install and removal scripts of a package; an empty one is absent.
#[derive(Debug, Clone)]
pub struct PackageScripts {
    pub pre_install: String,
    pub post_install: String,
    pub pre_remove: String,
    pub post_remove: String,
}

/// The scripts that are attached, by file name, in this order: pre-install,
/// post-install, pre-remove, post-remove; empty ones are skipped.
pub open spec fn attached_scripts(s: PackageScripts) -> Seq<(Seq<char>, Seq<u8>)> {
    let one = |name: Seq<char>, content: String| if content@.len() > 0 {
        seq![(name, vstd::utf8::encode_utf8(content@))]
    } else {
        Seq::empty()
    };
    one("pre-install.sh"@, s.pre_install) + one("post-install.sh"@, s.post_install) + one(
        "pre-remove.sh"@,
        s.pre_remove,
    ) + one("post-remove.sh"@, s.post_remove)
}

/// Attaches `content` as the script `name` unless it is empty.
fn attach_one(writer: &mut FpkgWriter, name: &str, content: &String)
    ensures
        scripts_view(final(writer).scripts@) == scripts_view(old(writer).scripts@) + (if content@.len() > 0 {
            seq![(name@, vstd::utf8::encode_utf8(content@))]
        } else {
            Seq::empty()
        }),
        final(writer).data_files == old(writer).data_files,
        final(writer).manifest == old(writer).manifest,
{
    if !content.as_str().is_empty() {
        let bytes = crate::compat::archive::copy_bytes(content.as_str().as_bytes());
        writer.add_script(name, bytes);
    } else {
        assert(scripts_view(old(writer).scripts@) + Seq::empty() =~= scripts_view(old(writer).scripts@));
    }
}

impl Builder {
    pub fn new(output_dir: String, verbose: bool) -> (res: Builder)
        ensures
            res.output_dir == output_dir,
            res.verbose == verbose,
    {
        Builder { output_dir, verbose }
    }

    /// Attaches the package's non-empty scripts to `writer` (the recipe's `scripts`).
    pub fn attach_scripts(writer: &mut FpkgWriter, scripts: &PackageScripts)
        ensures
            scripts_view(final(writer).scripts@) == scripts_view(old(writer).scripts@) + attached_scripts(*scripts),
            final(writer).data_files == old(writer).data_files,
            final(writer).manifest == old(writer).manifest,
    {
        attach_one(writer, "pre-install.sh", &scripts.pre_install);
        attach_one(writer, "post-install.sh", &scripts.post_install);
        attach_one(writer, "pre-remove.sh", &scripts.pre_remove);
        attach_one(writer, "post-remove.sh", &scripts.post_remove);
        assert(scripts_view(writer.scripts@) =~= scripts_view(old(writer).scripts@) + attached_scripts(*scripts));
    }
}

/// A copy of a list of strings.
fn copy_strings(v: &Vec<String>) -> (res: Vec<String>)
    ensures
        res@ == v@,
{
    let mut out: Vec<String> = Vec::new();
    for i in 0..v.len()
        invariant
            out@ == v@.take(i as int),
    {
        out.push(v[i].clone());
        assert(out@ =~= v@.take(i + 1));
    }
    assert(v@.take(v.len() as int) =~= v@);
    out
}

/// The URL the manifest names as the package's source: the download URL, or the
/// local path without one.
pub open spec fn source_url_of(r: Recipe) -> Seq<char> {
    if r.source.url@.len() > 0 {
        r.source.url@
    } else {
        r.source.local@
    }
}

/// The manifest a build writes for `r`, built at `build_date`: the recipe's package
/// description and relations, no size, flags or hashes yet, ed25519 signatures, format 1
/// for fpm 0.1.0 and later.
pub open spec fn manifest_of(m: Manifest, r: Recipe, build_date: Seq<char>) -> bool {
    &&& m.package.name == r.package.name
    &&& m.package.version == r.package.version
    &&& m.package.release == r.package.release
    &&& m.package.arch == r.package.arch
    &&& m.package.license == r.package.license
    &&& m.package.summary == r.package.summary
    &&& m.package.description == r.package.description
    &&& m.package.homepage == r.package.homepage
    &&& m.package.source_url@ == source_url_of(r)
    &&& m.package.maintainer == r.package.maintainer
    &&& m.package.build_date@ == build_date
    &&& m.package.categories@ == r.package.categories@
    &&& m.package.tags@ == r.package.tags@
    &&& m.package.size.installed == 0 && m.package.size.compressed == 0
    &&& m.package.size.delta_base@.len() == 0
    &&& !m.package.flags.system_config && !m.package.flags.has_services
    &&& !m.package.flags.selinux_aware && !m.package.flags.has_suid
    &&& m.verification.manifest_hash@.len() == 0
    &&& m.verification.content_tree@.len() == 0
    &&& m.verification.signature_algo@ == "ed25519"@
    &&& m.dependencies.requires@ == r.runtime.requires@
    &&& m.dependencies.suggests@ == r.runtime.suggests@
    &&& m.dependencies.conflicts@ == r.runtime.conflicts@
    &&& m.dependencies.provides@ == r.runtime.provides@
    &&& m.dependencies.before@.len() == 0 && m.dependencies.after@.len() == 0
    &&& m.install.mode == r.install.mode
    &&& m.install.config_files@ == r.install.config_files@
    &&& m.install.desktop_files@ == r.install.desktop_files@
    &&& m.repository.origin_repo@.len() == 0
    &&& m.repository.origin_url@.len() == 0
    &&& m.repository.fetched_at@.len() == 0
    &&& m.compat.min_fpm_version@ == "0.1.0"@
    &&& m.compat.fpkg_format@ == "1"@
}

/// Whether a downloaded source passes its check: a `blake3:` checksum must equal the
/// file's `blake3:<hex>` hash; any other expected value is not checked.
pub open spec fn source_checksum_ok(actual: Seq<char>, expected: Seq<char>) -> bool {
    starts_with(expected, "blake3:"@) ==> actual == expected
}

/// Whether a downloaded source is a tarball that is unpacked: its lowercased name ends
/// in `.tar.gz`, `.tgz`, `.tar.bz2`, `.tar.xz` or `.tar.zst`.
pub open spec fn is_source_tarball(file_name: Seq<char>) -> bool {
    let n = unicode_lowercase(file_name);
    ends_with(n, ".tar.gz"@) || ends_with(n, ".tgz"@) || ends_with(n, ".tar.bz2"@) || ends_with(
        n,
        ".tar.xz"@,
    ) || ends_with(n, ".tar.zst"@)
}

impl Builder {
    /// The manifest of the package `r`, built at `build_date`.
    pub fn build_manifest(r: &Recipe, build_date: String) -> (res: Manifest)
        ensures
            manifest_of(res, *r, build_date@),
    {
        let source_url = if !r.source.url.as_str().is_empty() {
            r.source.url.clone()
        } else {
            r.source.local.clone()
        };
        Manifest {
            package: ManifestPackage {
                name: r.package.name.clone(),
                version: r.package.version.clone(),
                release: r.package.release,
                arch: r.package.arch.clone(),
                license: r.package.license.clone(),
                summary: r.package.summary.clone(),
                description: r.package.description.clone(),
                homepage: r.package.homepage.clone(),
                source_url,
                maintainer: r.package.maintainer.clone(),
                build_date,
                categories: copy_strings(&r.package.categories),
                tags: copy_strings(&r.package.tags),
                size: ManifestSize { installed: 0, compressed: 0, delta_base: String::new() },
                flags: ManifestFlags {
                    system_config: false,
                    has_services: false,
                    selinux_aware: false,
                    has_suid: false,
                },
            },
            verification: ManifestVerification {
                manifest_hash: String::new(),
                content_tree: String::new(),
                signature_algo: owned("ed25519"),
            },
            dependencies: ManifestDependencies {
                requires: copy_strings(&r.runtime.requires),
                suggests: copy_strings(&r.runtime.suggests),
                conflicts: copy_strings(&r.runtime.conflicts),
                provides: copy_strings(&r.runtime.provides),
                before: Vec::new(),
                after: Vec::new(),
            },
            install: ManifestInstall {
                mode: r.install.mode.clone(),
                config_files: copy_strings(&r.install.config_files),
                desktop_files: copy_strings(&r.install.desktop_files),
            },
            repository: ManifestRepository {
                origin_repo: String::new(),
                origin_url: String::new(),
                fetched_at: String::new(),
            },
            compat: ManifestCompat { min_fpm_version: owned("0.1.0"), fpkg_format: owned("1") },
        }
    }

    /// Whether a downloaded source with hash `actual` (`blake3:<hex>`) passes the
    /// check against `expected`.
    pub fn source_checksum_ok(actual: &str, expected: &str) -> (res: bool)
        ensures
            res == source_checksum_ok(actual@, expected@),
    {
        let e = chars_of(expected);
        if starts_with_str(&e, "blake3:") {
            let a = chars_of(actual);
            same_chars(&a, &e)
        } else {
            true
        }
    }

    /// Whether a downloaded source named `file_name` is a tarball to unpack.
    pub fn is_source_tarball(file_name: &str) -> (res: bool)
        ensures
            res == is_source_tarball(file_name@),
    {
        let lower = to_lowercase(file_name);
        let n = chars_of(lower.as_str());
        ends_with_str(&n, ".tar.gz") || ends_with_str(&n, ".tgz") || ends_with_str(&n, ".tar.bz2")
            || ends_with_str(&n, ".tar.xz") || ends_with_str(&n, ".tar.zst")
    }
}

} // verus!
