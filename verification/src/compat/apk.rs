//! Alpine `.apk` packages: the `.PKGINFO` file inside the gzip-compressed tar stream.

use vstd::prelude::*;
use crate::text::{owned, utf8_decode};
use crate::compat::archive::{
    decoded_view, gzip_decode, gzip_decoded, pick_streamed, pick_streamed_member, tar_members, Decoded,
    DecodedView, MemberKind,
};
use crate::compat::convert::{package_result_view, ForeignPackage, ForeignPackageView};
use crate::compat::error::{CompatError, CompatErrorView};
use crate::compat::pkginfo::{pkginfo_fields, scan_pkginfo, PkgInfoView};

verus! {

/// The architecture name an `.fpkg` uses for an Alpine architecture.
pub open spec fn apk_arch_name(a: Seq<char>) -> Seq<char> {
    if a == "x86_64"@ {
        "x86_64"@
    } else if a == "aarch64"@ {
        "aarch64"@
    } else if a == "noarch"@ {
        "any"@
    } else {
        a
    }
}

/// The architecture name an `.fpkg` uses for an Alpine architecture.
pub fn apk_arch(a: &str) -> (res: String)
    ensures
        res@ == apk_arch_name(a@),
{
    let s = owned(a);
    if s == owned("x86_64") {
        owned("x86_64")
    } else if s == owned("aarch64") {
        owned("aarch64")
    } else if s == owned("noarch") {
        owned("any")
    } else {
        s
    }
}

/// The package described by the fields of an Alpine `.PKGINFO`: `pkgname` and
/// `pkgver` must be set.
pub open spec fn apk_package(info: PkgInfoView) -> Result<ForeignPackageView, CompatErrorView> {
    if info.name.len() == 0 {
        Err(CompatErrorView::MissingField("pkgname"@))
    } else if info.version.len() == 0 {
        Err(CompatErrorView::MissingField("pkgver"@))
    } else {
        Ok(
            ForeignPackageView {
                format: "apk"@,
                name: info.name,
                version: info.version,
                release: "1"@,
                arch: apk_arch_name(info.arch),
                summary: info.desc,
                description: info.desc,
                license: info.license,
                homepage: info.url,
                maintainer: Seq::empty(),
                depends: info.depends,
                conflicts: Seq::empty(),
                provides: Seq::empty(),
                installed_size: info.size,
            },
        )
    }
}

/// What a converted Alpine package carries from its `.PKGINFO` fields: it exists exactly
/// when the name and version are set, and then has them, its size as installed size,
/// its dependencies in order, its description as summary and description, its licence
/// and its URL as homepage.
pub proof fn lemma_apk_package_fields(info: PkgInfoView)
    ensures
        apk_package(info) is Ok <==> (info.name.len() > 0 && info.version.len() > 0),
        apk_package(info) matches Ok(p) ==> {
            &&& p.name == info.name
            &&& p.version == info.version
            &&& p.installed_size == info.size
            &&& p.depends == info.depends
            &&& p.summary == info.desc
            &&& p.description == info.desc
            &&& p.license == info.license
            &&& p.homepage == info.url
            &&& p.arch == apk_arch_name(info.arch)
            &&& p.format == "apk"@
        },
{
}

/// Adding the line `size = N` to the `.PKGINFO` of an Alpine package makes its installed
/// size `N`, and does not change whether it converts.
pub proof fn lemma_apk_size_line(t: Seq<char>, n: u64)
    requires
        t.len() == 0 || t.last() == '\n',
    ensures
        ({
            let after = apk_package(pkginfo_fields(t + ("size"@ + " = "@ + crate::text::decimal(n as nat)) + seq!['\n']));
            &&& (after is Ok <==> apk_package(pkginfo_fields(t)) is Ok)
            &&& after matches Ok(p) ==> p.installed_size == n
        }),
{
    crate::compat::pkginfo::lemma_pkginfo_size_line(t, n);
}

/// Reads the package described by the text of an Alpine `.PKGINFO`.
pub fn parse_pkginfo(s: &str) -> (res: Result<ForeignPackage, CompatError>)
    ensures
        package_result_view(res) == apk_package(pkginfo_fields(s@)),
{
    let info = scan_pkginfo(s);
    if info.name.as_str().is_empty() {
        return Err(CompatError::MissingField(owned("pkgname")));
    }
    if info.version.as_str().is_empty() {
        return Err(CompatError::MissingField(owned("pkgver")));
    }
    let arch = apk_arch(info.arch.as_str());
    let conflicts: Vec<String> = Vec::new();
    let provides: Vec<String> = Vec::new();
    assert(crate::compat::convert::strings_view(conflicts@) =~= Seq::<Seq<char>>::empty());
    Ok(
        ForeignPackage {
            format: owned("apk"),
            name: info.name,
            version: info.version,
            release: owned("1"),
            arch,
            summary: info.desc.clone(),
            description: info.desc,
            license: info.license,
            homepage: info.url,
            maintainer: String::new(),
            depends: info.depends,
            conflicts,
            provides,
            installed_size: info.size,
        },
    )
}

/// The message of the error raised for text that is not UTF-8.
pub open spec fn invalid_utf8() -> Seq<char> {
    "stream did not contain valid UTF-8"@
}

/// The text of the `.PKGINFO` member of a decompressed tar stream, read up to that member.
pub open spec fn pkginfo_in_tar(dec: DecodedView, missing: Seq<char>) -> Result<Seq<char>, CompatErrorView> {
    match pick_streamed(dec, MemberKind::PkgInfo, missing) {
        Err(e) => Err(e),
        Ok(e) => if vstd::utf8::valid_utf8(e.1) {
            Ok(vstd::utf8::decode_utf8(e.1))
        } else {
            Err(CompatErrorView::Io(invalid_utf8()))
        },
    }
}

/// The plain value of a result carrying text.
pub open spec fn text_result_view(r: Result<String, CompatError>) -> Result<Seq<char>, CompatErrorView> {
    match r {
        Ok(s) => Ok(s@),
        Err(e) => Err(e@),
    }
}

/// Reads the text of the `.PKGINFO` member of a decompressed tar stream.
pub fn pkginfo_member(dec: &Decoded, missing: &str) -> (res: Result<String, CompatError>)
    ensures
        text_result_view(res) == pkginfo_in_tar(decoded_view(*dec), missing@),
{
    let listing = tar_members(dec.data.as_slice());
    let i = pick_streamed_member(dec, &listing, MemberKind::PkgInfo, missing)?;
    match utf8_decode(listing.entries[i].data.as_slice()) {
        Some(s) => Ok(s),
        None => Err(CompatError::Io(owned("stream did not contain valid UTF-8"))),
    }
}

/// The package described by an `.apk` file's bytes.
pub open spec fn apk_parse(data: Seq<u8>) -> Result<ForeignPackageView, CompatErrorView> {
    match pkginfo_in_tar(gzip_decoded(data), ".PKGINFO not found in .apk"@) {
        Err(e) => Err(e),
        Ok(text) => apk_package(pkginfo_fields(text)),
    }
}

/// Reads the package described by the `.apk` held in `data`.
pub fn parse(data: &[u8]) -> (res: Result<ForeignPackage, CompatError>)
    ensures
        package_result_view(res) == apk_parse(data@),
{
    let dec = gzip_decode(data);
    let text = pkginfo_member(&dec, ".PKGINFO not found in .apk")?;
    parse_pkginfo(text.as_str())
}

} // verus!
