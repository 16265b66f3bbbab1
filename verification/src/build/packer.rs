//! Packing a build's destination directory into an `.fpkg`: the archive's manifest,
//! entry names and checksum list.

use vstd::prelude::*;
use crate::text::{append, append_str, append_string, chars_of, decimal, decimal_v, join, join_v, owned, string_of, views};
use crate::build::package::{push_entry, scripts_view};
use crate::compat::archive::copy_bytes;
use crate::build::checksums::{blake3_hex, hex_digest};
use crate::build::error::{BuildError, BuildErrorView};
use crate::build::pkgbuild::{fpkg_file_name, PkgBuild, RuntimeDep, RuntimeSection};
use crate::transaction::paths::{join as join_path_v, join_path};

verus! {

/// What packing produced: the archive, how many files it holds, and its checksum list.
#[derive(Debug, Clone)]
pub struct PackResult {
    pub fpkg_path: String,
    pub file_count: usize,
    pub blake3_manifest: String,
}

/// A file of the destination directory: its path relative to that directory and its
/// content.
#[derive(Debug, Clone)]
pub struct PackedFile {
    pub rel_path: String,
    pub content: Vec<u8>,
}

/// The archive entry of a file of the destination directory.
pub open spec fn archive_entry(rel: Seq<char>) -> Seq<char> {
    "DATA/"@ + rel
}

/// The checksum list: `<blake3-hex>  DATA/<path>` and a line end for every file, in order.
pub open spec fn checksum_list(files: Seq<PackedFile>) -> Seq<char>
    decreases files.len(),
{
    if files.len() == 0 {
        Seq::empty()
    } else {
        checksum_list(files.drop_last()) + blake3_hex(files.last().content@) + "  "@ + archive_entry(
            files.last().rel_path@,
        ) + "\n"@
    }
}

/// The archive entry of a file of the destination directory.
pub fn archive_entry_name(rel: &str) -> (res: String)
    ensures
        res@ == archive_entry(rel@),
{
    let mut out = chars_of("DATA/");
    append_str(&mut out, rel);
    string_of(&out)
}

/// The archive, entry count and checksum list of a package whose destination
/// directory holds `files`, written into `out_dir`; an empty directory has nothing to
/// package.
pub fn pack(pb: &PkgBuild, files: &Vec<PackedFile>, out_dir: &String) -> (res: Result<PackResult, BuildError>)
    ensures
        files@.len() == 0 <==> res is Err,
        res matches Err(e) ==> e@ == BuildErrorView::EmptyDestdir,
        res matches Ok(r) ==> r.fpkg_path@ == join_path(out_dir@, fpkg_file_name(*pb))
            && r.file_count == files@.len() && r.blake3_manifest@ == checksum_list(files@),
{
    if files.len() == 0 {
        return Err(BuildError::EmptyDestdir);
    }
    let name = pb.fpkg_name();
    let fpkg_path = join_path_v(out_dir, name.as_str());
    let mut sums: Vec<char> = Vec::new();
    for i in 0..files.len()
        invariant
            sums@ == checksum_list(files@.take(i as int)),
    {
        let f = &files[i];
        let digest = hex_digest(f.content.as_slice());
        append_string(&mut sums, &digest);
        append_str(&mut sums, "  ");
        append_string(&mut sums, &archive_entry_name(f.rel_path.as_str()));
        append_str(&mut sums, "\n");
        assert(files@.take(i + 1).drop_last() =~= files@.take(i as int));
    }
    assert(files@.take(files.len() as int) =~= files@);
    Ok(PackResult { fpkg_path, file_count: files.len(), blake3_manifest: string_of(&sums) })
}

// ------------------------------------------------------------------ the manifest

/// `"<a>"`.
pub open spec fn quoted(a: Seq<char>) -> Seq<char> {
    "\""@ + a + "\""@
}

/// The `[[dependencies]]` table of a run-time dependency.
pub open spec fn runtime_dep_table(d: RuntimeDep) -> Seq<char> {
    "[[dependencies]]\nname = \""@ + d.name@ + "\"\nversion = \""@ + (match d.version {
        Some(v) => v@,
        None => "*"@,
    }) + "\"\noptional = "@ + (if d.optional == Some(true) {
        "true"@
    } else {
        "false"@
    }) + "\n"@
}

/// The dependency tables of a `PKGBUILD.toml`: one per run-time requirement,
/// separated by empty lines; none without requirements.
pub open spec fn manifest_deps(runtime: Option<RuntimeSection>) -> Seq<char> {
    match runtime {
        Some(r) => match r.requires {
            Some(ds) => join(ds@.map_values(|d: RuntimeDep| runtime_dep_table(d)), "\n"@),
            None => Seq::empty(),
        },
        None => Seq::empty(),
    }
}

/// The value or nothing.
pub open spec fn text_or_empty(o: Option<String>) -> Seq<char> {
    match o {
        Some(s) => s@,
        None => Seq::empty(),
    }
}

/// The `META/manifest.toml` written for a `PKGBUILD.toml`.
pub open spec fn manifest_text(pb: PkgBuild) -> Seq<char> {
    "[package]\nname        = \""@ + pb.package.name@ + "\"\nversion     = \""@ + pb.package.version@
        + "\"\nrelease     = "@ + decimal(pb.package.release as nat) + "\narch        = ["@
        + join(pb.package.arch@.map_values(|a: String| quoted(a@)), ", "@)
        + "]\nlicense     = \""@ + pb.package.license@ + "\"\nsummary     = \""@ + text_or_empty(
        pb.package.summary,
    ) + "\"\nhomepage    = \""@ + text_or_empty(pb.package.homepage)
        + "\"\nmaintainer  = \""@ + text_or_empty(pb.package.maintainer)
        + "\"\n\n[verification]\nfpkg_format = 1\n\n"@ + manifest_deps(pb.runtime) + "\n"@
}

fn runtime_dep_table_v(d: &RuntimeDep) -> (res: Vec<char>)
    ensures
        res@ == runtime_dep_table(*d),
{
    let mut out = chars_of("[[dependencies]]\nname = \"");
    append_string(&mut out, &d.name);
    append_str(&mut out, "\"\nversion = \"");
    match &d.version {
        Some(v) => append_string(&mut out, v),
        None => append_str(&mut out, "*"),
    }
    append_str(&mut out, "\"\noptional = ");
    let opt = match d.optional {
        Some(b) => b,
        None => false,
    };
    if opt {
        append_str(&mut out, "true");
    } else {
        append_str(&mut out, "false");
    }
    append_str(&mut out, "\n");
    out
}

fn manifest_deps_v(runtime: &Option<RuntimeSection>) -> (res: Vec<char>)
    ensures
        res@ == manifest_deps(*runtime),
{
    match runtime {
        Some(r) => match &r.requires {
            Some(ds) => {
                let ghost f = |d: RuntimeDep| runtime_dep_table(d);
                let mut tables: Vec<Vec<char>> = Vec::new();
                for i in 0..ds.len()
                    invariant
                        f == (|d: RuntimeDep| runtime_dep_table(d)),
                        views(tables@) == ds@.take(i as int).map_values(f),
                {
                    let t = runtime_dep_table_v(&ds[i]);
                    let ghost before = views(tables@);
                    tables.push(t);
                    assert(views(tables@) =~= before.push(f(ds@[i as int])));
                    assert(ds@.take(i + 1).map_values(f) =~= ds@.take(i as int).map_values(f).push(f(ds@[i as int])));
                }
                assert(ds@.take(ds.len() as int) =~= ds@);
                let sep = chars_of("\n");
                join_v(&tables, &sep)
            },
            None => Vec::new(),
        },
        None => Vec::new(),
    }
}

fn text_or_empty_v(out: &mut Vec<char>, o: &Option<String>)
    ensures
        final(out)@ == old(out)@ + text_or_empty(*o),
{
    match o {
        Some(s) => append_string(out, s),
        None => {
            assert(old(out)@ + Seq::<char>::empty() =~= old(out)@);
        },
    }
}

/// The `META/manifest.toml` written for a `PKGBUILD.toml`.
pub fn build_manifest_toml(pb: &PkgBuild) -> (res: String)
    ensures
        res@ == manifest_text(*pb),
{
    let ghost f = |a: String| quoted(a@);
    let mut quoted_arches: Vec<Vec<char>> = Vec::new();
    for i in 0..pb.package.arch.len()
        invariant
            f == (|a: String| quoted(a@)),
            views(quoted_arches@) == pb.package.arch@.take(i as int).map_values(f),
    {
        let mut q = chars_of("\"");
        append_string(&mut q, &pb.package.arch[i]);
        append_str(&mut q, "\"");
        let ghost before = views(quoted_arches@);
        quoted_arches.push(q);
        assert(views(quoted_arches@) =~= before.push(f(pb.package.arch@[i as int])));
        assert(pb.package.arch@.take(i + 1).map_values(f) =~= pb.package.arch@.take(i as int).map_values(f).push(
            f(pb.package.arch@[i as int]),
        ));
    }
    assert(pb.package.arch@.take(pb.package.arch.len() as int) =~= pb.package.arch@);
    let comma = chars_of(", ");
    let arches = join_v(&quoted_arches, &comma);
    let mut out = chars_of("[package]\nname        = \"");
    append_string(&mut out, &pb.package.name);
    append_str(&mut out, "\"\nversion     = \"");
    append_string(&mut out, &pb.package.version);
    append_str(&mut out, "\"\nrelease     = ");
    append(&mut out, &decimal_v(pb.package.release as u64));
    append_str(&mut out, "\narch        = [");
    append(&mut out, &arches);
    append_str(&mut out, "]\nlicense     = \"");
    append_string(&mut out, &pb.package.license);
    append_str(&mut out, "\"\nsummary     = \"");
    text_or_empty_v(&mut out, &pb.package.summary);
    append_str(&mut out, "\"\nhomepage    = \"");
    text_or_empty_v(&mut out, &pb.package.homepage);
    append_str(&mut out, "\"\nmaintainer  = \"");
    text_or_empty_v(&mut out, &pb.package.maintainer);
    append_str(&mut out, "\"\n\n[verification]\nfpkg_format = 1\n\n");
    append(&mut out, &manifest_deps_v(&pb.runtime));
    append_str(&mut out, "\n");
    string_of(&out)
}

// ------------------------------------------------------------------ the archive

/// The entries of the `.fpkg` that packing writes, by name and content, in order: the
/// manifest, each file under `DATA/`, then the checksum list.
pub open spec fn pack_layout(pb: PkgBuild, files: Seq<PackedFile>) -> Seq<(Seq<char>, Seq<u8>)> {
    seq![("META/manifest.toml"@, vstd::utf8::encode_utf8(manifest_text(pb)))] + files.map_values(
        |f: PackedFile| (archive_entry(f.rel_path@), f.content@),
    ) + seq![("META/checksums.blake3"@, vstd::utf8::encode_utf8(checksum_list(files)))]
}

/// The entries of the `.fpkg` of a package whose destination directory holds `files`.
pub fn pack_entries(pb: &PkgBuild, files: &Vec<PackedFile>) -> (res: Vec<(String, Vec<u8>)>)
    ensures
        scripts_view(res@) == pack_layout(*pb, files@),
{
    let mut out: Vec<(String, Vec<u8>)> = Vec::new();
    let manifest = build_manifest_toml(pb);
    push_entry(&mut out, owned("META/manifest.toml"), copy_bytes(manifest.as_str().as_bytes()));
    let ghost head = scripts_view(out@);
    let ghost g = |f: PackedFile| (archive_entry(f.rel_path@), f.content@);
    let mut sums: Vec<char> = Vec::new();
    for i in 0..files.len()
        invariant
            head == seq![("META/manifest.toml"@, vstd::utf8::encode_utf8(manifest_text(*pb)))],
            g == (|f: PackedFile| (archive_entry(f.rel_path@), f.content@)),
            scripts_view(out@) == head + files@.take(i as int).map_values(g),
            sums@ == checksum_list(files@.take(i as int)),
    {
        let f = &files[i];
        let name = archive_entry_name(f.rel_path.as_str());
        let digest = hex_digest(f.content.as_slice());
        append_string(&mut sums, &digest);
        append_str(&mut sums, "  ");
        append_string(&mut sums, &name);
        append_str(&mut sums, "\n");
        assert(files@.take(i + 1).drop_last() =~= files@.take(i as int));
        let ghost before = scripts_view(out@);
        push_entry(&mut out, name, copy_bytes(f.content.as_slice()));
        assert(files@.take(i + 1).map_values(g) =~= files@.take(i as int).map_values(g).push(g(files@[i as int])));
        assert(scripts_view(out@) =~= head + files@.take(i + 1).map_values(g));
    }
    assert(files@.take(files.len() as int) =~= files@);
    let ghost mid = scripts_view(out@);
    let sums_text = string_of(&sums);
    push_entry(&mut out, owned("META/checksums.blake3"), copy_bytes(sums_text.as_str().as_bytes()));
    assert(scripts_view(out@) =~= pack_layout(*pb, files@));
    out
}

} // verus!
