//! Arch Linux `.pkg.tar.*` packages: the `.PKGINFO` file inside the compressed tar stream.

use vstd::prelude::*;
use crate::text::{chars_of, ends_with, ends_with_str, owned};
use crate::compat::archive::{
    gzip_decode, gzip_decoded, zstd_decode, zstd_decoded, DecodedView,
};
use crate::compat::apk::{pkginfo_in_tar, pkginfo_member};
use crate::compat::convert::{package_result_view, ForeignPackage, ForeignPackageView};
use crate::compat::error::{CompatError, CompatErrorView};
use crate::compat::pkginfo::{pkginfo_fields, scan_pkginfo, PkgInfoView};

verus! {

/// The package described by the fields of an Arch `.PKGINFO`: `pkgname` and `pkgver`
/// must be set; the architecture is kept as Arch writes it.
pub open spec fn arch_package(info: PkgInfoView) -> Result<ForeignPackageView, CompatErrorView> {
    if info.name.len() == 0 {
        Err(CompatErrorView::MissingField("pkgname"@))
    } else if info.version.len() == 0 {
        Err(CompatErrorView::MissingField("pkgver"@))
    } else {
        Ok(
            ForeignPackageView {
                format: "arch"@,
                name: info.name,
                version: info.version,
                release: "1"@,
                arch: info.arch,
                summary: info.desc,
                description: info.desc,
                license: info.license,
                homepage: info.url,
                maintainer: Seq::empty(),
                depends: info.depends,
                conflicts: info.conflicts,
                provides: info.provides,
                installed_size: info.size,
            },
        )
    }
}

/// What a converted Arch package carries from its `.PKGINFO` fields: it exists exactly
/// when the name and version are set, and then has them, its dependencies, conflicts
/// and provisions in order, its size as installed size, its architecture, description,
/// licence and URL.
pub proof fn lemma_arch_package_fields(info: PkgInfoView)
    ensures
        arch_package(info) is Ok <==> (info.name.len() > 0 && info.version.len() > 0),
        arch_package(info) matches Ok(p) ==> {
            &&& p.name == info.name
            &&& p.version == info.version
            &&& p.depends == info.depends
            &&& p.conflicts == info.conflicts
            &&& p.provides == info.provides
            &&& p.installed_size == info.size
            &&& p.arch == info.arch
            &&& p.summary == info.desc
            &&& p.description == info.desc
            &&& p.license == info.license
            &&& p.homepage == info.url
            &&& p.format == "arch"@
        },
{
}

/// Adding the line `depend = X` (a name without `>` or white space at its ends) to the
/// `.PKGINFO` of an Arch package adds exactly one dependency, on X with no version,
/// after its others, and does not change whether it converts.
pub proof fn lemma_arch_depend_line(t: Seq<char>, x: Seq<char>)
    requires
        t.len() == 0 || t.last() == '\n',
        x.len() > 0,
        !crate::text::unicode_white_space(x[0]),
        !crate::text::unicode_white_space(x.last()),
        !x.contains('\n'),
        !x.contains('>'),
        x.last() != '\r',
    ensures
        ({
            let before = arch_package(pkginfo_fields(t));
            let after = arch_package(pkginfo_fields(t + ("depend"@ + " = "@ + x) + seq!['\n']));
            &&& (after is Ok <==> before is Ok)
            &&& after matches Ok(p) ==> (before matches Ok(q) && p.depends.len() == q.depends.len() + 1
                && p.depends == q.depends.push((crate::compat::convert::ForeignDepView { name: x, version: None, optional: false })))
        }),
{
    crate::compat::pkginfo::lemma_pkginfo_depend_line(t, x);
}

/// Reads the package described by the text of an Arch `.PKGINFO`.
pub fn parse_pkginfo(s: &str) -> (res: Result<ForeignPackage, CompatError>)
    ensures
        package_result_view(res) == arch_package(pkginfo_fields(s@)),
{
    let info = scan_pkginfo(s);
    if info.name.as_str().is_empty() {
        return Err(CompatError::MissingField(owned("pkgname")));
    }
    if info.version.as_str().is_empty() {
        return Err(CompatError::MissingField(owned("pkgver")));
    }
    Ok(
        ForeignPackage {
            format: owned("arch"),
            name: info.name,
            version: info.version,
            release: owned("1"),
            arch: info.arch,
            summary: info.desc.clone(),
            description: info.desc,
            license: info.license,
            homepage: info.url,
            maintainer: String::new(),
            depends: info.depends,
            conflicts: info.conflicts,
            provides: info.provides,
            installed_size: info.size,
        },
    )
}

/// The tar stream of an Arch package as its decoder produced it, by the compression its
/// file name ends with: zstd or gzip; other compressions (xz) cannot be read.
pub open spec fn arch_tar(file_name: Seq<char>, data: Seq<u8>) -> Result<DecodedView, CompatErrorView> {
    if ends_with(file_name, ".zst"@) {
        Ok(zstd_decoded(data))
    } else if ends_with(file_name, ".gz"@) {
        Ok(gzip_decoded(data))
    } else {
        Err(CompatErrorView::UnsupportedFormat("xz"@))
    }
}

/// The package described by an Arch package file's name and bytes.
pub open spec fn arch_parse(file_name: Seq<char>, data: Seq<u8>) -> Result<ForeignPackageView, CompatErrorView> {
    match arch_tar(file_name, data) {
        Err(e) => Err(e),
        Ok(tar) => match pkginfo_in_tar(tar, ".PKGINFO not found in Arch package"@) {
            Err(e) => Err(e),
            Ok(text) => arch_package(pkginfo_fields(text)),
        },
    }
}

/// Reads the package described by the Arch package named `file_name` held in `data`.
pub fn parse(file_name: &str, data: &[u8]) -> (res: Result<ForeignPackage, CompatError>)
    ensures
        package_result_view(res) == arch_parse(file_name@, data@),
{
    let name = chars_of(file_name);
    let decoded = if ends_with_str(&name, ".zst") {
        zstd_decode(data)
    } else if ends_with_str(&name, ".gz") {
        gzip_decode(data)
    } else {
        return Err(CompatError::UnsupportedFormat(owned("xz")));
    };
    let text = pkginfo_member(&decoded, ".PKGINFO not found in Arch package")?;
    parse_pkginfo(text.as_str())
}

} // verus!
