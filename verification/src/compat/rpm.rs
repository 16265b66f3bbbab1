//! RPM packages: the fields of the package header.

use vstd::prelude::*;
use crate::text::owned;
use crate::compat::convert::{package_result_view, deps_view, strings_view, ForeignDep, ForeignDepView, ForeignPackage, ForeignPackageView};
use crate::compat::error::{CompatError, CompatErrorView};

verus! {

/// The header fields of an RPM package that a conversion reads, each as the reader
/// of the header returned it: the text, or the message of its error. Dependencies are
/// pairs of name and version.
pub struct RpmHeader {
    pub name: Result<String, String>,
    pub version: Result<String, String>,
    pub release: Result<String, String>,
    pub arch: Result<String, String>,
    pub summary: Result<String, String>,
    pub description: Result<String, String>,
    pub license: Result<String, String>,
    pub url: Result<String, String>,
    pub requires: Result<Vec<(String, String)>, String>,
}

/// The plain value of an `RpmHeader`.
pub struct RpmHeaderView {
    pub name: Result<Seq<char>, Seq<char>>,
    pub version: Result<Seq<char>, Seq<char>>,
    pub release: Result<Seq<char>, Seq<char>>,
    pub arch: Result<Seq<char>, Seq<char>>,
    pub summary: Result<Seq<char>, Seq<char>>,
    pub description: Result<Seq<char>, Seq<char>>,
    pub license: Result<Seq<char>, Seq<char>>,
    pub url: Result<Seq<char>, Seq<char>>,
    pub requires: Result<Seq<(Seq<char>, Seq<char>)>, Seq<char>>,
}

/// The plain value of a text field.
pub open spec fn field_view(r: Result<String, String>) -> Result<Seq<char>, Seq<char>> {
    match r {
        Ok(s) => Ok(s@),
        Err(m) => Err(m@),
    }
}

/// The plain value of a list of name and version pairs.
pub open spec fn pairs_view(v: Seq<(String, String)>) -> Seq<(Seq<char>, Seq<char>)> {
    v.map_values(|p: (String, String)| (p.0@, p.1@))
}

impl View for RpmHeader {
    type V = RpmHeaderView;

    open spec fn view(&self) -> RpmHeaderView {
        RpmHeaderView {
            name: field_view(self.name),
            version: field_view(self.version),
            release: field_view(self.release),
            arch: field_view(self.arch),
            summary: field_view(self.summary),
            description: field_view(self.description),
            license: field_view(self.license),
            url: field_view(self.url),
            requires: match self.requires {
                Ok(v) => Ok(pairs_view(v@)),
                Err(m) => Err(m@),
            },
        }
    }
}

/// The plain value of a list of header texts.
pub open spec fn texts_view(v: Seq<Result<String, String>>) -> Seq<Result<Seq<char>, Seq<char>>> {
    v.map_values(|r: Result<String, String>| field_view(r))
}

/// What `rpm::Package::parse` and the text getters of its metadata give for the bytes
/// of an RPM file: the message of the parse error, or the name, version, release,
/// architecture, summary, description, license and URL, each read or failed.
pub uninterp spec fn rpm_texts_of(data: Seq<u8>) -> Result<Seq<Result<Seq<char>, Seq<char>>>, Seq<char>>;

/// What `rpm::Package::parse` and `PackageMetadata::get_requires` give for the bytes of
/// an RPM file: the message of the first error, or each requirement's name and version.
pub uninterp spec fn rpm_requires_of(data: Seq<u8>) -> Result<Seq<(Seq<char>, Seq<char>)>, Seq<char>>;

// ------------------------------------------------------------------ screening the header layout

/// The big-endian 32-bit number at `p`.
pub open spec fn be_u32_at(d: Seq<u8>, p: int) -> nat {
    (d[p] as nat) * 16777216 + (d[p + 1] as nat) * 65536 + (d[p + 2] as nat) * 256 + (d[p + 3] as nat)
}

/// The number of index entries of the header structure at `p`.
pub open spec fn rpm_entry_count(d: Seq<u8>, p: int) -> nat {
    be_u32_at(d, p + 8)
}

/// The size of the data store of the header structure at `p`.
pub open spec fn rpm_store_size(d: Seq<u8>, p: int) -> nat {
    be_u32_at(d, p + 12)
}

/// Whether the index entry at `e`, in a header whose store holds `s` bytes, points into
/// the store (a non-negative offset not past its end) and counts no more items than the
/// store has bytes.
pub open spec fn rpm_entry_ok(d: Seq<u8>, e: int, s: nat) -> bool {
    &&& d[e + 8] < 0x80
    &&& be_u32_at(d, e + 8) <= s
    &&& be_u32_at(d, e + 12) <= s
}

/// Whether the header structure at `p` (16 bytes of counts, then 16 bytes per index
/// entry, then the store) has sizes whose 32-bit sum does not overflow, lies within `d`,
/// and has every index entry inside its store.
pub open spec fn rpm_header_ok(d: Seq<u8>, p: int) -> bool {
    let n = rpm_entry_count(d, p);
    let s = rpm_store_size(d, p);
    &&& 0 <= p
    &&& p + 16 <= d.len()
    &&& s + 16 * n < 0x1_0000_0000
    &&& p + 16 + 16 * n + s <= d.len()
    &&& forall|k: int| 0 <= k < n ==> #[trigger] rpm_entry_ok(d, p + 16 + 16 * k, s)
}

/// Where the signature header that follows the 96-byte lead ends, its store padded to a
/// multiple of 8 bytes.
pub open spec fn rpm_main_header_at(d: Seq<u8>) -> int {
    let n = rpm_entry_count(d, 96);
    let s = rpm_store_size(d, 96);
    96 + 16 + 16 * n + s + (8 - s % 8) % 8
}

/// Whether the RPM reader stops with its own error at the header structure at `p`
/// before reading its counts: the 16 bytes are missing, or the magic (whose first two
/// bytes it checks) or the version byte is wrong.
pub open spec fn rpm_header_refused_early(d: Seq<u8>, p: int) -> bool {
    p + 16 > d.len() || d[p] != 0x8e || d[p + 1] != 0xad || d[p + 3] != 1
}

/// Whether the first four bytes are the RPM lead's magic.
pub open spec fn rpm_lead_magic(d: Seq<u8>) -> bool {
    d[0] == 0xed && d[1] == 0xab && d[2] == 0xee && d[3] == 0xdb
}

/// The inputs the RPM reader is handed: those it refuses with its own error before it
/// reads a header's counts (a short or foreign lead, a short or foreign header, missing
/// padding), and those whose headers are laid out within the bytes with every index
/// entry inside its header's store.
pub open spec fn rpm_layout_ok(d: Seq<u8>) -> bool {
    let q = rpm_main_header_at(d);
    ||| d.len() < 96
    ||| !rpm_lead_magic(d)
    ||| rpm_header_refused_early(d, 96)
    ||| rpm_header_ok(d, 96) && (q > d.len() || rpm_header_refused_early(d, q) || rpm_header_ok(d, q))
}

/// The big-endian 32-bit number at `p`.
fn be_u32_v(data: &[u8], p: usize) -> (res: u64)
    requires
        p + 4 <= data.len(),
    ensures
        res == be_u32_at(data@, p as int),
        res < 0x1_0000_0000,
{
    (data[p] as u64) * 16777216 + (data[p + 1] as u64) * 65536 + (data[p + 2] as u64) * 256
        + (data[p + 3] as u64)
}

/// Whether the header structure at `p` is laid out within the bytes.
fn rpm_header_ok_v(data: &[u8], p: usize) -> (res: bool)
    ensures
        res == rpm_header_ok(data@, p as int),
{
    if p > data.len() || data.len() - p < 16 {
        return false;
    }
    let n = be_u32_v(data, p + 8);
    let s = be_u32_v(data, p + 12);
    if s + 16 * n >= 0x1_0000_0000 {
        return false;
    }
    if p as u128 + 16 + 16 * (n as u128) + s as u128 > data.len() as u128 {
        return false;
    }
    let mut k: u64 = 0;
    while k < n
        invariant
            k <= n,
            n == rpm_entry_count(data@, p as int),
            s == rpm_store_size(data@, p as int),
            p + 16 + 16 * n + s <= data.len(),
            forall|j: int| 0 <= j < k ==> #[trigger] rpm_entry_ok(data@, p + 16 + 16 * j, s as nat),
        decreases n - k,
    {
        let e: usize = (p as u128 + 16 + 16 * (k as u128)) as usize;
        let off_ok = data[e + 8] < 0x80 && be_u32_v(data, e + 8) <= s;
        let count_ok = be_u32_v(data, e + 12) <= s;
        if !(off_ok && count_ok) {
            assert(!rpm_entry_ok(data@, p + 16 + 16 * k, s as nat));
            return false;
        }
        assert(rpm_entry_ok(data@, p + 16 + 16 * k, s as nat));
        k = k + 1;
    }
    true
}

/// Whether the RPM reader stops at the header structure at `p` before reading its counts.
fn refused_early_v(data: &[u8], p: usize) -> (res: bool)
    ensures
        res == rpm_header_refused_early(data@, p as int),
{
    p > data.len() || data.len() - p < 16 || data[p] != 0x8e || data[p + 1] != 0xad || data[p + 3] != 1
}

/// Whether the RPM file in `data` is one the library hands to the RPM reader.
pub fn rpm_layout_supported(data: &[u8]) -> (res: bool)
    ensures
        res == rpm_layout_ok(data@),
{
    if data.len() < 96 || !(data[0] == 0xed && data[1] == 0xab && data[2] == 0xee && data[3] == 0xdb) {
        return true;
    }
    if refused_early_v(data, 96) {
        return true;
    }
    if !rpm_header_ok_v(data, 96) {
        return false;
    }
    let n = be_u32_v(data, 104);
    let s = be_u32_v(data, 108);
    let q: u64 = 96 + 16 + 16 * n + s + (8 - s % 8) % 8;
    if q as u128 > data.len() as u128 {
        return true;
    }
    refused_early_v(data, q as usize) || rpm_header_ok_v(data, q as usize)
}

/// Parses `data` with `rpm::Package::parse` and reads the eight text fields with the
/// getters of `rpm::PackageMetadata`, in the order of `rpm_texts_of`; the result is the
/// named `rpm_texts_of` of the bytes. Only files whose headers are laid out within the
/// bytes are handed to the crate: it sizes and slices with counts and offsets read from
/// the file, unchecked.
#[verifier::external_body]
fn read_rpm_texts(data: &[u8]) -> (res: Result<Vec<Result<String, String>>, String>)
    requires
        rpm_layout_ok(data@),
    ensures
        match res {
            Ok(v) => rpm_texts_of(data@) == Ok::<Seq<Result<Seq<char>, Seq<char>>>, Seq<char>>(texts_view(v@)) && v@.len() == 8,
            Err(m) => rpm_texts_of(data@) == Err::<Seq<Result<Seq<char>, Seq<char>>>, Seq<char>>(m@),
        },
{
    let m = rpm::Package::parse(&mut &data[..]).map_err(|e| e.to_string())?.metadata;
    let t = |r: Result<&str, rpm::Error>| r.map(String::from).map_err(|e| e.to_string());
    Ok(vec![t(m.get_name()), t(m.get_version()), t(m.get_release()), t(m.get_arch()),
        t(m.get_summary()), t(m.get_description()), t(m.get_license()), t(m.get_url())])
}

/// Parses `data` with `rpm::Package::parse` and reads `PackageMetadata::get_requires`;
/// the result is the named `rpm_requires_of` of the bytes. Only files whose headers are
/// laid out within the bytes are handed to the crate.
#[verifier::external_body]
fn read_rpm_requires(data: &[u8]) -> (res: Result<Vec<(String, String)>, String>)
    requires
        rpm_layout_ok(data@),
    ensures
        match res {
            Ok(v) => rpm_requires_of(data@) == Ok::<Seq<(Seq<char>, Seq<char>)>, Seq<char>>(pairs_view(v@)),
            Err(m) => rpm_requires_of(data@) == Err::<Seq<(Seq<char>, Seq<char>)>, Seq<char>>(m@),
        },
{
    let m = rpm::Package::parse(&mut &data[..]).map_err(|e| e.to_string())?.metadata;
    let v = m.get_requires().map_err(|e| e.to_string())?;
    Ok(v.into_iter().map(|d| (d.name, d.version)).collect())
}

/// The architecture name an `.fpkg` uses for an RPM architecture.
pub open spec fn rpm_arch_name(a: Seq<char>) -> Seq<char> {
    if a == "x86_64"@ {
        "x86_64"@
    } else if a == "aarch64"@ {
        "aarch64"@
    } else if a == "noarch"@ {
        "any"@
    } else {
        a
    }
}

/// The architecture name an `.fpkg` uses for an RPM architecture.
pub fn rpm_arch(a: &str) -> (res: String)
    ensures
        res@ == rpm_arch_name(a@),
{
    let s = owned(a);
    if s == owned("x86_64") {
        owned("x86_64")
    } else if s == owned("aarch64") {
        owned("aarch64")
    } else if s == owned("noarch") {
        owned("any")
    } else {
        s
    }
}

/// A required capability as a dependency: an empty version means any version.
pub open spec fn rpm_dep(p: (Seq<char>, Seq<char>)) -> ForeignDepView {
    ForeignDepView {
        name: p.0,
        version: if p.1.len() == 0 { None } else { Some(p.1) },
        optional: false,
    }
}

/// The dependencies of a header: its requirements, or none when they cannot be read.
pub open spec fn rpm_deps(r: Result<Seq<(Seq<char>, Seq<char>)>, Seq<char>>) -> Seq<ForeignDepView> {
    match r {
        Ok(v) => v.map_values(|p: (Seq<char>, Seq<char>)| rpm_dep(p)),
        Err(_) => Seq::empty(),
    }
}

/// The package described by an RPM header: the first field among name, version,
/// release, architecture, summary, description and license that cannot be read gives
/// the error; the URL and the requirements default to empty.
pub open spec fn rpm_package(h: RpmHeaderView) -> Result<ForeignPackageView, CompatErrorView> {
    match (h.name, h.version, h.release, h.arch, h.summary, h.description, h.license) {
        (Err(m), _, _, _, _, _, _) => Err(CompatErrorView::Rpm(m)),
        (Ok(_), Err(m), _, _, _, _, _) => Err(CompatErrorView::Rpm(m)),
        (Ok(_), Ok(_), Err(m), _, _, _, _) => Err(CompatErrorView::Rpm(m)),
        (Ok(_), Ok(_), Ok(_), Err(m), _, _, _) => Err(CompatErrorView::Rpm(m)),
        (Ok(_), Ok(_), Ok(_), Ok(_), Err(m), _, _) => Err(CompatErrorView::Rpm(m)),
        (Ok(_), Ok(_), Ok(_), Ok(_), Ok(_), Err(m), _) => Err(CompatErrorView::Rpm(m)),
        (Ok(_), Ok(_), Ok(_), Ok(_), Ok(_), Ok(_), Err(m)) => Err(CompatErrorView::Rpm(m)),
        (Ok(name), Ok(version), Ok(release), Ok(arch), Ok(summary), Ok(description), Ok(license)) => Ok(
            ForeignPackageView {
                format: "rpm"@,
                name,
                version,
                release,
                arch: rpm_arch_name(arch),
                summary,
                description,
                license,
                homepage: match h.url {
                    Ok(u) => u,
                    Err(_) => Seq::empty(),
                },
                maintainer: Seq::empty(),
                depends: rpm_deps(h.requires),
                conflicts: Seq::empty(),
                provides: Seq::empty(),
                installed_size: 0,
            },
        ),
    }
}

/// What a converted RPM carries from its header: it exists exactly when the name,
/// version, release, architecture, summary, description and license can all be read,
/// and then has each of them (the architecture in the `.fpkg` naming) in its own field;
/// the URL becomes the homepage (empty when unreadable); each readable requirement
/// becomes one dependency, in order, with its version unless that is empty.
pub proof fn lemma_rpm_package_fields(h: RpmHeaderView)
    ensures
        rpm_package(h) is Ok <==> (h.name is Ok && h.version is Ok && h.release is Ok && h.arch is Ok
            && h.summary is Ok && h.description is Ok && h.license is Ok),
        h.name matches Err(m) ==> rpm_package(h) == Err::<ForeignPackageView, CompatErrorView>(CompatErrorView::Rpm(m)),
        rpm_package(h) matches Ok(p) ==> {
            &&& h.name == Ok::<Seq<char>, Seq<char>>(p.name)
            &&& h.version == Ok::<Seq<char>, Seq<char>>(p.version)
            &&& h.release == Ok::<Seq<char>, Seq<char>>(p.release)
            &&& h.summary == Ok::<Seq<char>, Seq<char>>(p.summary)
            &&& h.description == Ok::<Seq<char>, Seq<char>>(p.description)
            &&& h.license == Ok::<Seq<char>, Seq<char>>(p.license)
            &&& h.arch matches Ok(a) && p.arch == rpm_arch_name(a)
            &&& p.format == "rpm"@
            &&& match h.url {
                Ok(u) => p.homepage == u,
                Err(_) => p.homepage.len() == 0,
            }
            &&& match h.requires {
                Ok(rs) => p.depends.len() == rs.len() && forall|i: int| 0 <= i < rs.len() ==> {
                    &&& (#[trigger] p.depends[i]).name == rs[i].0
                    &&& !p.depends[i].optional
                    &&& (rs[i].1.len() == 0 ==> p.depends[i].version is None)
                    &&& (rs[i].1.len() > 0 ==> p.depends[i].version == Some(rs[i].1))
                },
                Err(_) => p.depends.len() == 0,
            }
        },
{
}

/// A field that must be readable.
fn required(r: &Result<String, String>) -> (res: Result<String, CompatError>)
    ensures
        match field_view(*r) {
            Ok(s) => res matches Ok(v) && v@ == s,
            Err(m) => res matches Err(e) && e@ == CompatErrorView::Rpm(m),
        },
{
    match r {
        Ok(s) => Ok(s.clone()),
        Err(m) => Err(CompatError::Rpm(m.clone())),
    }
}

/// The dependencies of a header's requirements.
fn rpm_deps_v(r: &Result<Vec<(String, String)>, String>) -> (res: Vec<ForeignDep>)
    ensures
        deps_view(res@) == rpm_deps(
            match *r {
                Ok(v) => Ok(pairs_view(v@)),
                Err(m) => Err(m@),
            },
        ),
{
    let mut out: Vec<ForeignDep> = Vec::new();
    match r {
        Ok(v) => {
            let ghost pv = pairs_view(v@);
            for i in 0..v.len()
                invariant
                    pv == pairs_view(v@),
                    deps_view(out@) == pv.take(i as int).map_values(
                        |p: (Seq<char>, Seq<char>)| rpm_dep(p),
                    ),
            {
                let (n, ver) = &v[i];
                let version = if ver.as_str().is_empty() {
                    None
                } else {
                    Some(ver.clone())
                };
                let d = ForeignDep { name: n.clone(), version, optional: false };
                let ghost before = deps_view(out@);
                out.push(d);
                assert(deps_view(out@) =~= before.push(rpm_dep(pv[i as int])));
                assert(pv.take(i + 1).map_values(|p: (Seq<char>, Seq<char>)| rpm_dep(p))
                    =~= before.push(rpm_dep(pv[i as int])));
            }
            assert(pv.take(v.len() as int) =~= pv);
        },
        Err(_) => {
            assert(deps_view(out@) =~= Seq::<ForeignDepView>::empty());
        },
    }
    out
}

/// Builds the package described by the fields of an RPM header.
pub fn from_header(h: &RpmHeader) -> (res: Result<ForeignPackage, CompatError>)
    ensures
        package_result_view(res) == rpm_package(h@),
{
    let name = required(&h.name)?;
    let version = required(&h.version)?;
    let release = required(&h.release)?;
    let arch = required(&h.arch)?;
    let summary = required(&h.summary)?;
    let description = required(&h.description)?;
    let license = required(&h.license)?;
    let homepage = match &h.url {
        Ok(u) => u.clone(),
        Err(_) => String::new(),
    };
    let depends = rpm_deps_v(&h.requires);
    let conflicts: Vec<String> = Vec::new();
    let provides: Vec<String> = Vec::new();
    assert(strings_view(conflicts@) =~= Seq::<Seq<char>>::empty());
    assert(strings_view(provides@) =~= Seq::<Seq<char>>::empty());
    Ok(
        ForeignPackage {
            format: owned("rpm"),
            name,
            version,
            release,
            arch: rpm_arch(arch.as_str()),
            summary,
            description,
            license,
            homepage,
            maintainer: String::new(),
            depends,
            conflicts,
            provides,
            installed_size: 0,
        },
    )
}

/// The header read from an RPM file's bytes: its text fields and its requirements.
pub open spec fn rpm_header_from(ts: Seq<Result<Seq<char>, Seq<char>>>, reqs: Result<Seq<(Seq<char>, Seq<char>)>, Seq<char>>) -> RpmHeaderView {
    RpmHeaderView {
        name: ts[0],
        version: ts[1],
        release: ts[2],
        arch: ts[3],
        summary: ts[4],
        description: ts[5],
        license: ts[6],
        url: ts[7],
        requires: reqs,
    }
}

/// The package described by an RPM file's bytes; a file whose header counts or offsets
/// reach outside its bytes is refused before it is read.
pub open spec fn rpm_parse(data: Seq<u8>) -> Result<ForeignPackageView, CompatErrorView> {
    if !rpm_layout_ok(data) {
        Err(CompatErrorView::Rpm("RPM header reaches outside the file"@))
    } else {
        match rpm_texts_of(data) {
            Err(m) => Err(CompatErrorView::Rpm(m)),
            Ok(ts) => rpm_package(rpm_header_from(ts, rpm_requires_of(data))),
        }
    }
}

/// A copy of a text field.
fn copy_field(r: &Result<String, String>) -> (res: Result<String, String>)
    ensures
        field_view(res) == field_view(*r),
{
    match r {
        Ok(s) => Ok(s.clone()),
        Err(m) => Err(m.clone()),
    }
}

/// Reads the package described by the RPM file held in `data`.
pub fn parse(data: &[u8]) -> (res: Result<ForeignPackage, CompatError>)
    ensures
        package_result_view(res) == rpm_parse(data@),
{
    if !rpm_layout_supported(data) {
        return Err(CompatError::Rpm(owned("RPM header reaches outside the file")));
    }
    let ts = match read_rpm_texts(data) {
        Ok(ts) => ts,
        Err(m) => return Err(CompatError::Rpm(m)),
    };
    let reqs = read_rpm_requires(data);
    let h = RpmHeader {
        name: copy_field(&ts[0]),
        version: copy_field(&ts[1]),
        release: copy_field(&ts[2]),
        arch: copy_field(&ts[3]),
        summary: copy_field(&ts[4]),
        description: copy_field(&ts[5]),
        license: copy_field(&ts[6]),
        url: copy_field(&ts[7]),
        requires: reqs,
    };
    assert(h@ == rpm_header_from(texts_view(ts@), rpm_requires_of(data@)));
    from_header(&h)
}

} // verus!
