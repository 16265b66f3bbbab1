//! Assembling an `.fpkg`: its data files, scripts, checksums, Merkle root and
//! dependency table.

use vstd::prelude::*;
use crate::text::{
    append, append_str, append_string, chars_of, join, join_v, owned, slice_of, starts_with,
    starts_with_str, string_of, trim, trim_start_char, trim_start_char_v, trim_v, views,
};
use crate::build::checksums::{
    blake3_hex, content_hash, hash_bytes, hex_digest, lemma_merkle_root_order_independent, merkle_root, merkle_root_of,
};
use crate::build::manifest::Manifest;
use crate::compat::archive::copy_bytes;

verus! {

/// A file of the package's `DATA/` tree.
pub struct DataFile {
    pub archive_path: String,
    pub content: Vec<u8>,
}

/// An `.fpkg` being assembled.
pub struct FpkgWriter {
    pub output_path: String,
    pub manifest: Manifest,
    pub data_files: Vec<DataFile>,
    pub scripts: Vec<(String, Vec<u8>)>,
    pub changelog: String,
    pub origin: String,
}

/// The plain values of data files: archive path and content.
pub open spec fn data_view(fs: Seq<DataFile>) -> Seq<(Seq<char>, Seq<u8>)> {
    fs.map_values(|f: DataFile| (f.archive_path@, f.content@))
}

/// The plain values of scripts: name and content.
pub open spec fn scripts_view(ss: Seq<(String, Vec<u8>)>) -> Seq<(Seq<char>, Seq<u8>)> {
    ss.map_values(|s: (String, Vec<u8>)| (s.0@, s.1@))
}

/// Where a data file given by a path relative to the package root goes in the archive:
/// under `DATA/`, unless the path is there already; leading `/` are dropped.
pub open spec fn data_archive_path(rel: Seq<char>) -> Seq<char> {
    if starts_with(rel, "DATA/"@) {
        rel
    } else {
        "DATA/"@ + trim_start_char(rel, '/')
    }
}

/// The line of `META/checksums.blake3` for a data file: `<blake3-hex>  <path>`.
pub open spec fn checksum_entry(f: (Seq<char>, Seq<u8>)) -> Seq<char> {
    blake3_hex(f.1) + "  "@ + f.0
}

/// The text of `META/checksums.blake3`: one line per data file, in order.
pub open spec fn checksums_text(fs: Seq<(Seq<char>, Seq<u8>)>) -> Seq<char> {
    join(fs.map_values(|f: (Seq<char>, Seq<u8>)| checksum_entry(f)), "\n"@)
}

/// The content hashes of the data files, in order.
pub open spec fn content_hashes(fs: Seq<(Seq<char>, Seq<u8>)>) -> Seq<Seq<char>> {
    fs.map_values(|f: (Seq<char>, Seq<u8>)| content_hash(f.1))
}

/// What `format!("{:?}", s)` writes for the string `s`: it quoted, with the escapes of
/// `str::escape_debug`.
pub uninterp spec fn str_debug(s: Seq<char>) -> Seq<char>;

/// Calls `<str as Debug>::fmt` through `format!`; the result is the named `str_debug`
/// of the text.
#[verifier::external_body]
fn debug_quoted(s: &str) -> (res: String)
    ensures
        res@ == str_debug(s@),
{
    format!("{:?}", s)
}

/// A character that starts the version part of a dependency.
pub open spec fn is_version_op(c: char) -> bool {
    c == '>' || c == '<' || c == '=' || c == '^' || c == '~'
}

/// The index of the first version operator in `s`.
pub open spec fn first_version_op(s: Seq<char>) -> Option<int>
    decreases s.len(),
{
    if s.len() == 0 {
        None
    } else {
        match first_version_op(s.drop_last()) {
            Some(i) => Some(i),
            None => if is_version_op(s.last()) {
                Some(s.len() - 1)
            } else {
                None
            },
        }
    }
}

/// A dependency `name op version` as its trimmed name and its trimmed version part
/// (from the first operator on), or the trimmed text and no version.
pub open spec fn split_dep_spec(dep: Seq<char>) -> (Seq<char>, Seq<char>) {
    match first_version_op(dep) {
        Some(i) => (trim(dep.take(i)), trim(dep.skip(i))),
        None => (trim(dep), Seq::empty()),
    }
}

/// The `[[dep]]` table of a requirement or (`optional`) a suggestion.
pub open spec fn dep_block(dep: Seq<char>, optional: bool) -> Seq<char> {
    let p = split_dep_spec(dep);
    "[[dep]]\nname     = "@ + str_debug(p.0) + "\nversion  = "@ + str_debug(p.1) + (if optional {
        "\noptional = true\ngroup    = \"optional\"\nreason   = \"\"\n"@
    } else {
        "\noptional = false\nreason   = \"\"\n"@
    })
}

/// The text of `META/dependencies.toml`: the requirements, then the suggestions.
pub open spec fn deps_toml_text(reqs: Seq<Seq<char>>, sugs: Seq<Seq<char>>) -> Seq<char> {
    join(
        reqs.map_values(|r: Seq<char>| dep_block(r, false)) + sugs.map_values(
            |s: Seq<char>| dep_block(s, true),
        ),
        "\n"@,
    )
}

/// The characters of each string.
pub open spec fn texts(v: Seq<String>) -> Seq<Seq<char>> {
    v.map_values(|s: String| s@)
}

/// Splits a dependency into its name and version part.
pub fn split_dep(dep: &str) -> (res: (String, String))
    ensures
        (res.0@, res.1@) == split_dep_spec(dep@),
{
    let d = chars_of(dep);
    let mut i: usize = 0;
    while i < d.len() && !(d[i] == '>' || d[i] == '<' || d[i] == '=' || d[i] == '^' || d[i] == '~')
        invariant
            i <= d.len(),
            d@ == dep@,
            first_version_op(d@.take(i as int)) is None,
        decreases d.len() - i,
    {
        assert(d@.take(i + 1).drop_last() =~= d@.take(i as int));
        i = i + 1;
    }
    proof {
        lemma_first_version_op_prefix(d@, i as int);
    }
    if i < d.len() {
        let head = slice_of(&d, 0, i);
        let tail = slice_of(&d, i, d.len());
        assert(head@ =~= d@.take(i as int));
        assert(tail@ =~= d@.skip(i as int));
        let n = trim_v(&head);
        let v = trim_v(&tail);
        (string_of(&n), string_of(&v))
    } else {
        assert(d@.take(i as int) =~= d@);
        let n = trim_v(&d);
        (string_of(&n), String::new())
    }
}

/// Where the scan of `split_dep` stops: the first operator, if any.
proof fn lemma_first_version_op_prefix(s: Seq<char>, i: int)
    requires
        0 <= i <= s.len(),
        first_version_op(s.take(i)) is None,
        i < s.len() ==> is_version_op(s[i]),
    ensures
        first_version_op(s) == (if i < s.len() {
            Some(i)
        } else {
            None::<int>
        }),
    decreases s.len() - i,
{
    if i < s.len() {
        assert(s.take(i + 1).drop_last() =~= s.take(i));
        lemma_first_match_extends(s, i + 1);
    } else {
        assert(s.take(i) =~= s);
    }
}

/// A first operator in a prefix is the first operator of the whole text.
proof fn lemma_first_match_extends(s: Seq<char>, k: int)
    requires
        0 <= k <= s.len(),
        first_version_op(s.take(k)) is Some,
    ensures
        first_version_op(s) == first_version_op(s.take(k)),
    decreases s.len() - k,
{
    if k < s.len() {
        assert(s.take(k + 1).drop_last() =~= s.take(k));
        lemma_first_match_extends(s, k + 1);
    } else {
        assert(s.take(k) =~= s);
    }
}

/// The `[[dep]]` table of a requirement or (`optional`) a suggestion.
fn dep_block_v(dep: &String, optional: bool) -> (res: Vec<char>)
    ensures
        res@ == dep_block(dep@, optional),
{
    let (name, version) = split_dep(dep.as_str());
    let mut out: Vec<char> = Vec::new();
    append_str(&mut out, "[[dep]]\nname     = ");
    append_string(&mut out, &debug_quoted(name.as_str()));
    append_str(&mut out, "\nversion  = ");
    append_string(&mut out, &debug_quoted(version.as_str()));
    if optional {
        append_str(&mut out, "\noptional = true\ngroup    = \"optional\"\nreason   = \"\"\n");
    } else {
        append_str(&mut out, "\noptional = false\nreason   = \"\"\n");
    }
    out
}

/// Every data file lies under `DATA/`.
pub proof fn lemma_data_archive_path(rel: Seq<char>)
    ensures
        starts_with(data_archive_path(rel), "DATA/"@),
{
    reveal_strlit("DATA/");
    if !starts_with(rel, "DATA/"@) {
        let p = "DATA/"@ + trim_start_char(rel, '/');
        assert(p.take(5) =~= "DATA/"@);
    }
}

impl FpkgWriter {
    /// Every data file of the writer lies under `DATA/`.
    pub open spec fn wf(&self) -> bool {
        forall|i: int| 0 <= i < self.data_files@.len() ==> starts_with(
            #[trigger] self.data_files@[i].archive_path@,
            "DATA/"@,
        )
    }

    /// A writer of the package `manifest` into `output_path`, with no files yet and the
    /// native origin.
    pub fn new(output_path: String, manifest: Manifest) -> (res: FpkgWriter)
        ensures
            res.output_path == output_path,
            res.manifest == manifest,
            res.data_files@.len() == 0,
            res.scripts@.len() == 0,
            res.changelog@ == Seq::<char>::empty(),
            res.origin@ == "native"@,
            res.wf(),
    {
        FpkgWriter {
            output_path,
            manifest,
            data_files: Vec::new(),
            scripts: Vec::new(),
            changelog: String::new(),
            origin: owned("native"),
        }
    }

    /// Adds a data file given by its path relative to the package root.
    pub fn add_data_file(&mut self, rel_path: &str, content: Vec<u8>)
        ensures
            data_view(final(self).data_files@) == data_view(old(self).data_files@).push(
                (data_archive_path(rel_path@), content@),
            ),
            final(self).output_path == old(self).output_path,
            final(self).manifest == old(self).manifest,
            final(self).scripts == old(self).scripts,
            final(self).changelog == old(self).changelog,
            final(self).origin == old(self).origin,
            old(self).wf() ==> final(self).wf(),
    {
        let rel = chars_of(rel_path);
        let archive_path = if starts_with_str(&rel, "DATA/") {
            owned(rel_path)
        } else {
            let mut p = chars_of("DATA/");
            let t = trim_start_char_v(&rel, '/');
            append(&mut p, &t);
            string_of(&p)
        };
        proof {
            lemma_data_archive_path(rel_path@);
        }
        let ghost before = data_view(self.data_files@);
        let ghost old_files = self.data_files@;
        let ghost cv = content@;
        self.data_files.push(DataFile { archive_path, content });
        assert(data_view(self.data_files@) =~= before.push((data_archive_path(rel_path@), cv)));
        assert(forall|i: int| 0 <= i < old_files.len() ==> self.data_files@[i] == old_files[i]);
    }

    /// Adds an install or removal script.
    pub fn add_script(&mut self, name: &str, content: Vec<u8>)
        ensures
            scripts_view(final(self).scripts@) == scripts_view(old(self).scripts@).push(
                (name@, content@),
            ),
            final(self).output_path == old(self).output_path,
            final(self).manifest == old(self).manifest,
            final(self).data_files == old(self).data_files,
            final(self).changelog == old(self).changelog,
            final(self).origin == old(self).origin,
    {
        let ghost before = scripts_view(self.scripts@);
        let ghost cv = content@;
        self.scripts.push((owned(name), content));
        assert(scripts_view(self.scripts@) =~= before.push((name@, cv)));
    }

    /// The text of `META/checksums.blake3`.
    pub fn build_checksums(&self) -> (res: String)
        ensures
            res@ == checksums_text(data_view(self.data_files@)),
    {
        let ghost fs = data_view(self.data_files@);
        let ghost f = |x: (Seq<char>, Seq<u8>)| checksum_entry(x);
        let mut lines: Vec<Vec<char>> = Vec::new();
        for i in 0..self.data_files.len()
            invariant
                fs == data_view(self.data_files@),
                f == (|x: (Seq<char>, Seq<u8>)| checksum_entry(x)),
                views(lines@) == fs.take(i as int).map_values(f),
        {
            let file = &self.data_files[i];
            let mut l = chars_of(hex_digest(file.content.as_slice()).as_str());
            append_str(&mut l, "  ");
            append_string(&mut l, &file.archive_path);
            let ghost before = views(lines@);
            lines.push(l);
            assert(views(lines@) =~= before.push(f(fs[i as int])));
            assert(fs.take(i + 1).map_values(f) =~= fs.take(i as int).map_values(f).push(f(fs[i as int])));
        }
        assert(fs.take(self.data_files.len() as int) =~= fs);
        let sep = chars_of("\n");
        string_of(&join_v(&lines, &sep))
    }

    /// The Merkle root of the data files' content hashes.
    pub fn compute_merkle(&self) -> (res: String)
        ensures
            res@ == merkle_root_of(content_hashes(data_view(self.data_files@))),
    {
        let ghost fs = data_view(self.data_files@);
        let mut hashes: Vec<String> = Vec::new();
        for i in 0..self.data_files.len()
            invariant
                fs == data_view(self.data_files@),
                texts(hashes@) == content_hashes(fs.take(i as int)),
        {
            let h = hash_bytes(self.data_files[i].content.as_slice());
            let ghost before = texts(hashes@);
            hashes.push(h);
            assert(texts(hashes@) =~= before.push(content_hash(fs[i as int].1)));
            assert(content_hashes(fs.take(i + 1)) =~= content_hashes(fs.take(i as int)).push(
                content_hash(fs[i as int].1),
            ));
        }
        assert(fs.take(self.data_files.len() as int) =~= fs);
        assert(hashes@.map_values(|s: String| s@) =~= texts(hashes@));
        merkle_root(&hashes)
    }

    /// The text of `META/dependencies.toml`.
    pub fn build_deps_toml(&self) -> (res: String)
        ensures
            res@ == deps_toml_text(
                texts(self.manifest.dependencies.requires@),
                texts(self.manifest.dependencies.suggests@),
            ),
    {
        let deps = &self.manifest.dependencies;
        let ghost rq = texts(deps.requires@);
        let ghost sg = texts(deps.suggests@);
        let ghost fr = |r: Seq<char>| dep_block(r, false);
        let ghost fs = |s: Seq<char>| dep_block(s, true);
        let mut lines: Vec<Vec<char>> = Vec::new();
        for i in 0..deps.requires.len()
            invariant
                rq == texts(deps.requires@),
                fr == (|r: Seq<char>| dep_block(r, false)),
                views(lines@) == rq.take(i as int).map_values(fr),
        {
            let b = dep_block_v(&deps.requires[i], false);
            let ghost before = views(lines@);
            lines.push(b);
            assert(views(lines@) =~= before.push(fr(rq[i as int])));
            assert(rq.take(i + 1).map_values(fr) =~= rq.take(i as int).map_values(fr).push(fr(rq[i as int])));
        }
        assert(rq.take(deps.requires.len() as int) =~= rq);
        let ghost first = views(lines@);
        for i in 0..deps.suggests.len()
            invariant
                sg == texts(deps.suggests@),
                fs == (|s: Seq<char>| dep_block(s, true)),
                views(lines@) == first + sg.take(i as int).map_values(fs),
        {
            let b = dep_block_v(&deps.suggests[i], true);
            let ghost before = views(lines@);
            lines.push(b);
            assert(views(lines@) =~= before.push(fs(sg[i as int])));
            assert(sg.take(i + 1).map_values(fs) =~= sg.take(i as int).map_values(fs).push(fs(sg[i as int])));
        }
        assert(sg.take(deps.suggests.len() as int) =~= sg);
        let sep = chars_of("\n");
        string_of(&join_v(&lines, &sep))
    }

    /// The entries of the archive, in order, given the text of the manifest.
    pub fn archive_entries(&self, manifest_toml: &str) -> (res: Vec<(String, Vec<u8>)>)
        ensures
            scripts_view(res@) == archive_layout(*self, manifest_toml@),
    {
        let mut out: Vec<(String, Vec<u8>)> = Vec::new();
        let ghost start = scripts_view(out@);
        push_entry(&mut out, owned("META/manifest.toml"), copy_bytes(manifest_toml.as_bytes()));
        let checksums = self.build_checksums();
        push_entry(&mut out, owned("META/checksums.blake3"), copy_bytes(checksums.as_str().as_bytes()));
        let deps = self.build_deps_toml();
        if !deps.as_str().is_empty() {
            push_entry(&mut out, owned("META/dependencies.toml"), copy_bytes(deps.as_str().as_bytes()));
        }
        if !self.changelog.as_str().is_empty() {
            push_entry(&mut out, owned("META/changelog.md"), copy_bytes(self.changelog.as_str().as_bytes()));
        }
        let ghost head = scripts_view(out@);
        let ghost ss = scripts_view(self.scripts@);
        for i in 0..self.scripts.len()
            invariant
                ss == scripts_view(self.scripts@),
                scripts_view(out@) == head + ss.take(i as int).map_values(
                    |x: (Seq<char>, Seq<u8>)| ("META/scripts/"@ + x.0, x.1),
                ),
        {
            let (name, content) = &self.scripts[i];
            let mut n = chars_of("META/scripts/");
            append_string(&mut n, name);
            push_entry(&mut out, string_of(&n), copy_bytes(content.as_slice()));
            assert(ss.take(i + 1).map_values(|x: (Seq<char>, Seq<u8>)| ("META/scripts/"@ + x.0, x.1))
                =~= ss.take(i as int).map_values(|x: (Seq<char>, Seq<u8>)| ("META/scripts/"@ + x.0, x.1)).push(
                ("META/scripts/"@ + ss[i as int].0, ss[i as int].1),
            ));
        }
        assert(ss.take(self.scripts.len() as int) =~= ss);
        let ghost mid = scripts_view(out@);
        let ghost ds = data_view(self.data_files@);
        for i in 0..self.data_files.len()
            invariant
                ds == data_view(self.data_files@),
                scripts_view(out@) == mid + ds.take(i as int),
        {
            let f = &self.data_files[i];
            push_entry(&mut out, f.archive_path.clone(), copy_bytes(f.content.as_slice()));
            assert(ds.take(i + 1) =~= ds.take(i as int).push(ds[i as int]));
        }
        assert(ds.take(self.data_files.len() as int) =~= ds);
        push_entry(&mut out, owned("COMPAT/origin_format.txt"), copy_bytes(self.origin.as_str().as_bytes()));
        assert(scripts_view(out@) =~= archive_layout(*self, manifest_toml@));
        out
    }
}

/// Appends an entry.
pub(crate) fn push_entry(out: &mut Vec<(String, Vec<u8>)>, name: String, content: Vec<u8>)
    ensures
        scripts_view(final(out)@) == scripts_view(old(out)@).push((name@, content@)),
{
    let ghost before = scripts_view(out@);
    let ghost e = (name@, content@);
    out.push((name, content));
    assert(scripts_view(out@) =~= before.push(e));
}

/// Mapping two sequences with the same elements gives sequences with the same elements.
proof fn lemma_map_same_elements<A, B>(x: Seq<A>, y: Seq<A>, f: spec_fn(A) -> B)
    requires
        x.to_multiset() == y.to_multiset(),
    ensures
        x.map_values(f).to_multiset() == y.map_values(f).to_multiset(),
    decreases x.len(),
{
    broadcast use vstd::seq_lib::group_to_multiset_ensures;
    broadcast use vstd::multiset::group_multiset_axioms;

    if x.len() == 0 {
        assert(x.to_multiset().len() == x.len());
        assert(y.to_multiset().len() == y.len());
        assert(y.len() == 0);
        assert(x.map_values(f) =~= Seq::<B>::empty());
        assert(y.map_values(f) =~= Seq::<B>::empty());
    } else {
        let e = x.last();
        let x0 = x.drop_last();
        assert(x0.push(e) =~= x);
        assert(y.to_multiset().count(e) > 0);
        assert(y.contains(e));
        let i = choose|i: int| 0 <= i < y.len() && y[i] == e;
        let y0 = y.remove(i);
        assert(x0.to_multiset() =~= y0.to_multiset());
        lemma_map_same_elements(x0, y0, f);
        assert(x.map_values(f) =~= x0.map_values(f).push(f(e)));
        assert(y.map_values(f).remove(i) =~= y0.map_values(f));
        assert(y.map_values(f)[i] == f(e));
        assert(y.map_values(f).to_multiset() =~= y0.map_values(f).to_multiset().insert(f(e)));
    }
}

/// The contents of data files, in order.
pub open spec fn contents_of(fs: Seq<(Seq<char>, Seq<u8>)>) -> Seq<Seq<u8>> {
    fs.map_values(|f: (Seq<char>, Seq<u8>)| f.1)
}

/// The Merkle root that `compute_merkle` gives depends only on the contents of the data
/// files: reordering them, or giving them other paths, leaves it unchanged.
pub proof fn lemma_compute_merkle_order_independent(
    a: Seq<(Seq<char>, Seq<u8>)>,
    b: Seq<(Seq<char>, Seq<u8>)>,
)
    requires
        contents_of(a).to_multiset() == contents_of(b).to_multiset(),
    ensures
        merkle_root_of(content_hashes(a)) == merkle_root_of(content_hashes(b)),
{
    let h = |c: Seq<u8>| content_hash(c);
    lemma_map_same_elements(contents_of(a), contents_of(b), h);
    assert(content_hashes(a) =~= contents_of(a).map_values(h));
    assert(content_hashes(b) =~= contents_of(b).map_values(h));
    lemma_merkle_root_order_independent(content_hashes(a), content_hashes(b));
}

/// The entries of an `.fpkg`, in order: `META/manifest.toml` (the given text),
/// `META/checksums.blake3`, `META/dependencies.toml` when it has any text,
/// `META/changelog.md` when there is a changelog, each script under `META/scripts/`,
/// each data file, and `COMPAT/origin_format.txt`.
pub open spec fn archive_layout(w: FpkgWriter, manifest_toml: Seq<char>) -> Seq<(Seq<char>, Seq<u8>)> {
    let deps = deps_toml_text(texts(w.manifest.dependencies.requires@), texts(w.manifest.dependencies.suggests@));
    seq![
        ("META/manifest.toml"@, vstd::utf8::encode_utf8(manifest_toml)),
        ("META/checksums.blake3"@, vstd::utf8::encode_utf8(checksums_text(data_view(w.data_files@)))),
    ] + (if deps.len() > 0 {
        seq![("META/dependencies.toml"@, vstd::utf8::encode_utf8(deps))]
    } else {
        Seq::empty()
    }) + (if w.changelog@.len() > 0 {
        seq![("META/changelog.md"@, vstd::utf8::encode_utf8(w.changelog@))]
    } else {
        Seq::empty()
    }) + scripts_view(w.scripts@).map_values(|x: (Seq<char>, Seq<u8>)| ("META/scripts/"@ + x.0, x.1))
        + data_view(w.data_files@) + seq![("COMPAT/origin_format.txt"@, vstd::utf8::encode_utf8(w.origin@))]
}

} // verus!
