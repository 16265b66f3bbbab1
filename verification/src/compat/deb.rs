//! Debian `.deb` packages: the `control` file inside `control.tar*` inside the `ar`
//! archive, read into a `ForeignPackage`.

use vstd::prelude::*;
use crate::text::{
    append, chars_of, find_char, find_char_v, lines, lines_v, owned, parse_u64, parse_u64_v,
    slice_of, split_char, split_char_v, starts_with, string_of, to_lowercase, trim, trim_end_char,
    trim_end_char_v, trim_start, trim_start_non_alnum, trim_start_non_alnum_v, trim_start_v,
    trim_v, unicode_lowercase, utf8_decode, views, ends_with, ends_with_str,
};
use crate::compat::archive::{
    ar_archive_supported, ar_listing, ar_members, ar_supported, bzip2_decode, bzip2_decoded, copy_bytes, decoded_view, gzip_decode,
    gzip_decoded, pick_entry, pick_member, pick_streamed, pick_streamed_member, Decoded, DecodedView, tar_listing, tar_members, zstd_decode, zstd_decoded,
    MemberKind,
};
use crate::compat::convert::{
    deps_view, opt_view, package_result_view, strings_view, ForeignDep, ForeignDepView, ForeignPackage,
    ForeignPackageView,
};
use crate::compat::error::{CompatError, CompatErrorView};

verus! {

// ------------------------------------------------------------------ control fields

/// The fields of a control file in the order they were set; a later setting of a
/// key replaces an earlier one.
#[derive(Debug, Clone)]
pub struct ControlFields {
    pub entries: Vec<(String, String)>,
}

/// The characters of each key and value.
pub open spec fn pairs_view(v: Seq<(String, String)>) -> Seq<(Seq<char>, Seq<char>)> {
    v.map_values(|e: (String, String)| (e.0@, e.1@))
}

impl View for ControlFields {
    type V = Seq<(Seq<char>, Seq<char>)>;

    open spec fn view(&self) -> Seq<(Seq<char>, Seq<char>)> {
        pairs_view(self.entries@)
    }
}

/// The value last set for `k`.
pub open spec fn lookup(log: Seq<(Seq<char>, Seq<char>)>, k: Seq<char>) -> Option<Seq<char>>
    decreases log.len(),
{
    if log.len() == 0 {
        None
    } else if log.last().0 == k {
        Some(log.last().1)
    } else {
        lookup(log.drop_last(), k)
    }
}

impl ControlFields {
    /// The value last set for `key`.
    pub fn get(&self, key: &str) -> (res: Option<String>)
        ensures
            opt_view(res) == lookup(self@, key@),
    {
        let k = owned(key);
        let mut i = self.entries.len();
        assert(self@.take(self@.len() as int) =~= self@);
        while i > 0
            invariant
                i <= self.entries.len(),
                k@ == key@,
                lookup(self@, key@) == lookup(self@.take(i as int), key@),
            decreases i,
        {
            let e = &self.entries[i - 1];
            assert(self@.take(i as int).drop_last() =~= self@.take(i - 1));
            assert(self@.take(i as int).last() == (e.0@, e.1@));
            if e.0 == k {
                return Some(e.1.clone());
            }
            i = i - 1;
        }
        assert(self@.take(0) =~= Seq::<(Seq<char>, Seq<char>)>::empty());
        None
    }
}

/// The state of reading a control file: the fields finished so far, and the key
/// and value being read.
pub struct ControlState {
    pub log: Seq<(Seq<char>, Seq<char>)>,
    pub key: Seq<char>,
    pub val: Seq<char>,
}

/// The fields with the one being read finished, if there is one.
pub open spec fn flush(st: ControlState) -> Seq<(Seq<char>, Seq<char>)> {
    if st.key.len() > 0 {
        st.log.push((st.key, trim(st.val)))
    } else {
        st.log
    }
}

/// Reading one line: an indented line continues the value, a line with a colon
/// starts a new field, any other line is ignored.
pub open spec fn control_step(st: ControlState, line: Seq<char>) -> ControlState {
    if starts_with(line, seq![' ']) || starts_with(line, seq!['\t']) {
        ControlState { log: st.log, key: st.key, val: st.val.push('\n') + trim_start(line) }
    } else {
        match find_char(line, ':') {
            Some(c) => ControlState {
                log: flush(st),
                key: unicode_lowercase(trim(line.take(c))),
                val: trim(line.skip(c + 1)),
            },
            None => st,
        }
    }
}

/// The state after reading `ls`.
pub open spec fn control_fold(ls: Seq<Seq<char>>) -> ControlState
    decreases ls.len(),
{
    if ls.len() == 0 {
        ControlState {
            log: Seq::empty(),
            key: Seq::empty(),
            val: Seq::empty(),
        }
    } else {
        control_step(control_fold(ls.drop_last()), ls.last())
    }
}

/// The fields of a control file's text.
pub open spec fn control_fields(text: Seq<char>) -> Seq<(Seq<char>, Seq<char>)> {
    flush(control_fold(lines(text)))
}

/// The message of the error raised for text that is not UTF-8.
pub open spec fn invalid_utf8_message() -> Seq<char> {
    "stream did not contain valid UTF-8"@
}

/// The fields of a control file's bytes, or the error for bytes that are not UTF-8.
pub open spec fn control_result(data: Seq<u8>) -> Result<
    Seq<(Seq<char>, Seq<char>)>,
    CompatErrorView,
> {
    if vstd::utf8::valid_utf8(data) {
        Ok(control_fields(vstd::utf8::decode_utf8(data)))
    } else {
        Err(CompatErrorView::Io(invalid_utf8_message()))
    }
}

/// The plain value of a result carrying fields.
pub open spec fn fields_result_view(r: Result<ControlFields, CompatError>) -> Result<
    Seq<(Seq<char>, Seq<char>)>,
    CompatErrorView,
> {
    match r {
        Ok(f) => Ok(f@),
        Err(e) => Err(e@),
    }
}

/// Reads the fields of a control file's text.
pub fn parse_control_text(text: &Vec<char>) -> (res: ControlFields)
    ensures
        res@ == control_fields(text@),
{
    let ls = lines_v(text);
    let ghost lsv = lines(text@);
    let mut entries: Vec<(String, String)> = Vec::new();
    let mut key: Vec<char> = Vec::new();
    let mut val: Vec<char> = Vec::new();
    for i in 0..ls.len()
        invariant
            views(ls@) == lsv,
            lsv == lines(text@),
            pairs_view(entries@) == control_fold(lsv.take(i as int)).log,
            key@ == control_fold(lsv.take(i as int)).key,
            val@ == control_fold(lsv.take(i as int)).val,
    {
        let line = &ls[i];
        let ghost st = control_fold(lsv.take(i as int));
        proof {
            assert(lsv.take(i + 1).drop_last() =~= lsv.take(i as int));
            assert(lsv.take(i + 1).last() == line@);
        }
        let indented = line.len() > 0 && (line[0] == ' ' || line[0] == '\t');
        assert(indented == (starts_with(line@, seq![' ']) || starts_with(line@, seq!['\t']))) by {
            if line@.len() > 0 {
                assert(line@.take(1) =~= seq![line@[0]]);
                if starts_with(line@, seq![' ']) {
                    assert(line@.take(1)[0] == seq![' '][0]);
                }
                if starts_with(line@, seq!['\t']) {
                    assert(line@.take(1)[0] == seq!['\t'][0]);
                }
                if line@[0] == ' ' {
                    assert(line@.take(1) =~= seq![' ']);
                }
                if line@[0] == '\t' {
                    assert(line@.take(1) =~= seq!['\t']);
                }
            }
        }
        if indented {
            let rest = trim_start_v(line);
            val.push('\n');
            append(&mut val, &rest);
        } else {
            match find_char_v(line, ':') {
                Some(c) => {
                    if key.len() > 0 {
                        let k = string_of(&key);
                        let tv = trim_v(&val);
                        let v = string_of(&tv);
                        let ghost before = pairs_view(entries@);
                        entries.push((k, v));
                        assert(pairs_view(entries@) =~= before.push((st.key, trim(st.val))));
                    }
                    let head = slice_of(line, 0, c);
                    let th = trim_v(&head);
                    let ths = string_of(&th);
                    let lower = to_lowercase(ths.as_str());
                    key = chars_of(lower.as_str());
                    let tail = slice_of(line, c + 1, line.len());
                    val = trim_v(&tail);
                    assert(head@ =~= line@.take(c as int));
                    assert(tail@ =~= line@.skip(c + 1));
                },
                None => {},
            }
        }
    }
    assert(lsv.take(ls.len() as int) =~= lsv);
    if key.len() > 0 {
        let k = string_of(&key);
        let tv = trim_v(&val);
        let v = string_of(&tv);
        let ghost before = pairs_view(entries@);
        entries.push((k, v));
        assert(pairs_view(entries@) =~= before.push((key@, trim(val@))));
    }
    ControlFields { entries }
}

/// Reads the fields of a control file's bytes, which must be UTF-8.
pub fn parse_control_bytes(data: &[u8]) -> (res: Result<ControlFields, CompatError>)
    ensures
        fields_result_view(res) == control_result(data@),
{
    match utf8_decode(data) {
        Some(s) => {
            let text = chars_of(s.as_str());
            Ok(parse_control_text(&text))
        },
        None => Err(CompatError::Io(owned("stream did not contain valid UTF-8"))),
    }
}

// ------------------------------------------------------------------ dependencies

/// One entry of a `Depends` list: `name` or `name (op version)`.
pub open spec fn deb_dep(chunk: Seq<char>) -> ForeignDepView {
    let c = trim(chunk);
    match find_char(c, '(') {
        Some(p) => ForeignDepView {
            name: trim(c.take(p)),
            version: Some(trim_start_non_alnum(trim(trim_end_char(c.skip(p + 1), ')')))),
            optional: false,
        },
        None => ForeignDepView { name: c, version: None, optional: false },
    }
}

/// The dependencies with a non-empty name.
pub open spec fn keep_named(ds: Seq<ForeignDepView>) -> Seq<ForeignDepView>
    decreases ds.len(),
{
    if ds.len() == 0 {
        ds
    } else if ds.last().name.len() > 0 {
        keep_named(ds.drop_last()).push(ds.last())
    } else {
        keep_named(ds.drop_last())
    }
}

/// The dependencies of a comma-separated `Depends` value.
pub open spec fn deb_deps(s: Seq<char>) -> Seq<ForeignDepView> {
    keep_named(split_char(s, ',').map_values(|c: Seq<char>| deb_dep(c)))
}

/// One entry of a `Depends` list.
fn deb_dep_v(chunk: &Vec<char>) -> (res: ForeignDep)
    ensures
        res@ == deb_dep(chunk@),
{
    let c = trim_v(chunk);
    match find_char_v(&c, '(') {
        Some(p) => {
            let head = slice_of(&c, 0, p);
            let name = trim_v(&head);
            let tail = slice_of(&c, p + 1, c.len());
            let a = trim_end_char_v(&tail, ')');
            let b = trim_v(&a);
            let v = trim_start_non_alnum_v(&b);
            assert(head@ =~= c@.take(p as int));
            assert(tail@ =~= c@.skip(p + 1));
            ForeignDep { name: string_of(&name), version: Some(string_of(&v)), optional: false }
        },
        None => ForeignDep { name: string_of(&c), version: None, optional: false },
    }
}

/// The dependencies of a comma-separated `Depends` value.
pub fn parse_deb_deps(s: &str) -> (res: Vec<ForeignDep>)
    ensures
        deps_view(res@) == deb_deps(s@),
{
    let sv = chars_of(s);
    let chunks = split_char_v(&sv, ',');
    let ghost all = split_char(s@, ',').map_values(|c: Seq<char>| deb_dep(c));
    let mut out: Vec<ForeignDep> = Vec::new();
    for i in 0..chunks.len()
        invariant
            views(chunks@) == split_char(s@, ','),
            all == split_char(s@, ',').map_values(|c: Seq<char>| deb_dep(c)),
            deps_view(out@) == keep_named(all.take(i as int)),
    {
        let d = deb_dep_v(&chunks[i]);
        proof {
            assert(all.take(i + 1).drop_last() =~= all.take(i as int));
            assert(all.take(i + 1).last() == d@);
        }
        if !d.name.as_str().is_empty() {
            let ghost before = deps_view(out@);
            let ghost dv = d@;
            out.push(d);
            assert(deps_view(out@) =~= before.push(dv));
        }
    }
    assert(all.take(chunks.len() as int) =~= all);
    out
}


// ------------------------------------------------------------------ package

/// The architecture name an `.fpkg` uses for a Debian architecture.
pub open spec fn deb_arch_name(a: Seq<char>) -> Seq<char> {
    if a == "amd64"@ {
        "x86_64"@
    } else if a == "arm64"@ {
        "aarch64"@
    } else if a == "i386"@ {
        "i686"@
    } else if a == "all"@ {
        "any"@
    } else {
        a
    }
}

/// The architecture name an `.fpkg` uses for a Debian architecture.
pub fn deb_arch(a: &str) -> (res: String)
    ensures
        res@ == deb_arch_name(a@),
{
    let s = owned(a);
    if s == owned("amd64") {
        owned("x86_64")
    } else if s == owned("arm64") {
        owned("aarch64")
    } else if s == owned("i386") {
        owned("i686")
    } else if s == owned("all") {
        owned("any")
    } else {
        s
    }
}

/// The trimmed pieces of a comma-separated value.
pub open spec fn comma_list(s: Seq<char>) -> Seq<Seq<char>> {
    split_char(s, ',').map_values(|p: Seq<char>| trim(p))
}

/// The trimmed pieces of a comma-separated value.
fn comma_list_v(s: &str) -> (res: Vec<String>)
    ensures
        strings_view(res@) == comma_list(s@),
{
    let sv = chars_of(s);
    let pieces = split_char_v(&sv, ',');
    let ghost all = split_char(s@, ',');
    let mut out: Vec<String> = Vec::new();
    for i in 0..pieces.len()
        invariant
            views(pieces@) == all,
            all == split_char(s@, ','),
            strings_view(out@) == all.take(i as int).map_values(|p: Seq<char>| trim(p)),
    {
        let t = trim_v(&pieces[i]);
        let ts = string_of(&t);
        let ghost before = strings_view(out@);
        out.push(ts);
        assert(strings_view(out@) =~= before.push(trim(all[i as int])));
        assert(all.take(i + 1).map_values(|p: Seq<char>| trim(p)) =~= before.push(trim(all[i as int])));
    }
    assert(all.take(pieces.len() as int) =~= all);
    out
}

/// The first line of a text, or nothing for a text without lines.
pub open spec fn first_line(d: Seq<char>) -> Seq<char> {
    let ls = lines(d);
    if ls.len() > 0 {
        ls[0]
    } else {
        Seq::empty()
    }
}

/// The value, or the empty text.
pub open spec fn or_empty(o: Option<Seq<char>>) -> Seq<char> {
    match o {
        Some(s) => s,
        None => Seq::empty(),
    }
}

/// The value, or a default.
pub open spec fn or_else(o: Option<Seq<char>>, d: Seq<char>) -> Seq<char> {
    match o {
        Some(s) => s,
        None => d,
    }
}

/// The installed size in bytes: the `Installed-Size` field counts KiB; an absent or
/// unreadable value counts as 0, and the product wraps as `u64` arithmetic does.
pub open spec fn deb_installed_size(log: Seq<(Seq<char>, Seq<char>)>) -> u64 {
    let kib: u64 = match lookup(log, "installed-size"@) {
        Some(v) => match parse_u64(v) {
            Some(n) => n,
            None => 0,
        },
        None => 0,
    };
    kib.wrapping_mul(1024)
}

/// The package described by the fields of a control file.
pub open spec fn deb_package(log: Seq<(Seq<char>, Seq<char>)>) -> Result<
    ForeignPackageView,
    CompatErrorView,
> {
    match lookup(log, "package"@) {
        None => Err(CompatErrorView::MissingField("package"@)),
        Some(name) => match lookup(log, "version"@) {
            None => Err(CompatErrorView::MissingField("version"@)),
            Some(version) => Ok(
                ForeignPackageView {
                    format: "deb"@,
                    name,
                    version,
                    release: "1"@,
                    arch: deb_arch_name(or_else(lookup(log, "architecture"@), "amd64"@)),
                    summary: match lookup(log, "description"@) {
                        Some(d) => first_line(d),
                        None => Seq::empty(),
                    },
                    description: or_empty(lookup(log, "description"@)),
                    license: or_else(lookup(log, "license"@), "unknown"@),
                    homepage: or_empty(lookup(log, "homepage"@)),
                    maintainer: or_empty(lookup(log, "maintainer"@)),
                    depends: match lookup(log, "depends"@) {
                        Some(d) => deb_deps(d),
                        None => Seq::empty(),
                    },
                    conflicts: match lookup(log, "conflicts"@) {
                        Some(c) => comma_list(c),
                        None => Seq::empty(),
                    },
                    provides: match lookup(log, "provides"@) {
                        Some(c) => comma_list(c),
                        None => Seq::empty(),
                    },
                    installed_size: deb_installed_size(log),
                },
            ),
        },
    }
}

/// The last value set for a key is the one read back: after `(k, v)` is added to the
/// fields, `k` reads as `v`, and every other key reads as before.
pub proof fn lemma_lookup_last_wins(log: Seq<(Seq<char>, Seq<char>)>, k: Seq<char>, v: Seq<char>, other: Seq<char>)
    ensures
        lookup(log.push((k, v)), k) == Some(v),
        other != k ==> lookup(log.push((other, v)), k) == lookup(log, k),
{
    assert(log.push((k, v)).drop_last() =~= log);
    assert(log.push((other, v)).drop_last() =~= log);
}

/// What a converted `.deb` carries from its control fields: it exists exactly when both
/// `Package` and `Version` are set, and then has their values; `Provides` and
/// `Conflicts` become the trimmed comma-separated pieces of their values, one per
/// piece (so at least one when the field is set) and none when it is absent;
/// `Description`, `License`, `Homepage` and `Maintainer` are carried over (with
/// `unknown` for a missing license); an unset architecture is `amd64`; `Installed-Size`
/// counts KiB.
pub proof fn lemma_deb_package_fields(log: Seq<(Seq<char>, Seq<char>)>)
    ensures
        deb_package(log) is Ok <==> (lookup(log, "package"@) is Some && lookup(log, "version"@) is Some),
        lookup(log, "package"@) is None ==> deb_package(log) == Err::<ForeignPackageView, CompatErrorView>(
            CompatErrorView::MissingField("package"@),
        ),
        lookup(log, "package"@) is Some && lookup(log, "version"@) is None ==> deb_package(log) == Err::<
            ForeignPackageView,
            CompatErrorView,
        >(CompatErrorView::MissingField("version"@)),
        deb_package(log) matches Ok(p) ==> {
            &&& lookup(log, "package"@) == Some(p.name)
            &&& lookup(log, "version"@) == Some(p.version)
            &&& p.format == "deb"@
            &&& p.release == "1"@
            &&& match lookup(log, "provides"@) {
                Some(v) => p.provides.len() == split_char(v, ',').len() && p.provides.len() >= 1 && forall|i: int|
                    0 <= i < p.provides.len() ==> #[trigger] p.provides[i] == trim(split_char(v, ',')[i]),
                None => p.provides.len() == 0,
            }
            &&& match lookup(log, "conflicts"@) {
                Some(v) => p.conflicts.len() == split_char(v, ',').len() && p.conflicts.len() >= 1 && forall|i: int|
                    0 <= i < p.conflicts.len() ==> #[trigger] p.conflicts[i] == trim(split_char(v, ',')[i]),
                None => p.conflicts.len() == 0,
            }
            &&& match lookup(log, "depends"@) {
                Some(v) => p.depends.len() <= split_char(v, ',').len() && forall|i: int|
                    0 <= i < p.depends.len() ==> (#[trigger] p.depends[i]).name.len() > 0 && !p.depends[i].optional,
                None => p.depends.len() == 0,
            }
            &&& match lookup(log, "description"@) {
                Some(d) => p.description == d,
                None => p.description.len() == 0 && p.summary.len() == 0,
            }
            &&& match lookup(log, "license"@) {
                Some(l) => p.license == l,
                None => p.license == "unknown"@,
            }
            &&& match lookup(log, "homepage"@) {
                Some(h) => p.homepage == h,
                None => p.homepage.len() == 0,
            }
            &&& match lookup(log, "maintainer"@) {
                Some(m) => p.maintainer == m,
                None => p.maintainer.len() == 0,
            }
            &&& lookup(log, "architecture"@) is None ==> p.arch == "x86_64"@
            &&& lookup(log, "installed-size"@) is None ==> p.installed_size == 0
            &&& lookup(log, "installed-size"@) matches Some(s) ==> (parse_u64(s) matches Some(k) ==> (k * 1024
                <= u64::MAX ==> p.installed_size == k * 1024))
        },
{
    if let Some(v) = lookup(log, "provides"@) {
        crate::text::lemma_split_nonempty(v, ',');
    }
    if let Some(v) = lookup(log, "conflicts"@) {
        crate::text::lemma_split_nonempty(v, ',');
    }
    if let Some(v) = lookup(log, "depends"@) {
        lemma_keep_named(split_char(v, ',').map_values(|c: Seq<char>| deb_dep(c)));
    }
    reveal_strlit("amd64");
    reveal_strlit("x86_64");
    if let Some(s) = lookup(log, "installed-size"@) {
        if let Some(k) = parse_u64(s) {
            if k * 1024 <= u64::MAX {
                vstd::arithmetic::div_mod::lemma_small_mod((k * 1024) as nat, 0x1_0000_0000_0000_0000nat);
            }
        }
    }
}

/// Keeping the named dependencies keeps no more than there were, all of them named
/// and none optional when none was.
proof fn lemma_keep_named(ds: Seq<ForeignDepView>)
    requires
        forall|i: int| 0 <= i < ds.len() ==> !(#[trigger] ds[i]).optional,
    ensures
        keep_named(ds).len() <= ds.len(),
        forall|i: int| 0 <= i < keep_named(ds).len() ==> (#[trigger] keep_named(ds)[i]).name.len() > 0
            && !keep_named(ds)[i].optional,
    decreases ds.len(),
{
    if ds.len() > 0 {
        lemma_keep_named(ds.drop_last());
    }
}

/// The value, or the empty string.
fn or_empty_v(o: Option<String>) -> (res: String)
    ensures
        res@ == or_empty(opt_view(o)),
{
    match o {
        Some(s) => s,
        None => String::new(),
    }
}

/// Builds the package described by the fields of a control file.
pub fn build_package(f: &ControlFields) -> (res: Result<ForeignPackage, CompatError>)
    ensures
        package_result_view(res) == deb_package(f@),
{
    let depends = match f.get("depends") {
        Some(s) => parse_deb_deps(s.as_str()),
        None => {
            let v: Vec<ForeignDep> = Vec::new();
            assert(deps_view(v@) =~= Seq::<ForeignDepView>::empty());
            v
        },
    };
    let conflicts = match f.get("conflicts") {
        Some(s) => comma_list_v(s.as_str()),
        None => {
            let v: Vec<String> = Vec::new();
            assert(strings_view(v@) =~= Seq::<Seq<char>>::empty());
            v
        },
    };
    let provides = match f.get("provides") {
        Some(s) => comma_list_v(s.as_str()),
        None => {
            let v: Vec<String> = Vec::new();
            assert(strings_view(v@) =~= Seq::<Seq<char>>::empty());
            v
        },
    };
    let kib: u64 = match f.get("installed-size") {
        Some(v) => {
            let vc = chars_of(v.as_str());
            match parse_u64_v(&vc) {
                Some(n) => n,
                None => 0,
            }
        },
        None => 0,
    };
    let installed_size = kib.wrapping_mul(1024);
    let name = match f.get("package") {
        Some(n) => n,
        None => return Err(CompatError::MissingField(owned("package"))),
    };
    let version = match f.get("version") {
        Some(v) => v,
        None => return Err(CompatError::MissingField(owned("version"))),
    };
    let arch = match f.get("architecture") {
        Some(a) => deb_arch(a.as_str()),
        None => deb_arch("amd64"),
    };
    let summary = match f.get("description") {
        Some(d) => {
            let dc = chars_of(d.as_str());
            let ls = lines_v(&dc);
            if ls.len() > 0 {
                string_of(&ls[0])
            } else {
                String::new()
            }
        },
        None => String::new(),
    };
    let description = or_empty_v(f.get("description"));
    let license = match f.get("license") {
        Some(l) => l,
        None => owned("unknown"),
    };
    let homepage = or_empty_v(f.get("homepage"));
    let maintainer = or_empty_v(f.get("maintainer"));
    let pkg = ForeignPackage {
        format: owned("deb"),
        name,
        version,
        release: owned("1"),
        arch,
        summary,
        description,
        license,
        homepage,
        maintainer,
        depends,
        conflicts,
        provides,
        installed_size,
    };
    Ok(pkg)
}


// ------------------------------------------------------------------ the archive

/// The plain value of a result carrying bytes.
pub open spec fn bytes_result_view(r: Result<Vec<u8>, CompatError>) -> Result<Seq<u8>, CompatErrorView> {
    match r {
        Ok(v) => Ok(v@),
        Err(e) => Err(e@),
    }
}

/// The tar stream inside a `control.tar*` member, by the compression its name ends with,
/// as far as its decoder produced it.
pub open spec fn decompressed(name: Seq<char>, data: Seq<u8>) -> DecodedView {
    if ends_with(name, ".zst"@) {
        zstd_decoded(data)
    } else if ends_with(name, ".gz"@) {
        gzip_decoded(data)
    } else if ends_with(name, ".bz2"@) {
        bzip2_decoded(data)
    } else {
        (data, None)
    }
}

/// The bytes of the `control` file inside a `control.tar*` member, read from the
/// decompressed stream up to that file.
pub open spec fn control_in_tar(name: Seq<char>, data: Seq<u8>) -> Result<Seq<u8>, CompatErrorView> {
    match pick_streamed(
        decompressed(name, data),
        MemberKind::ControlFile,
        "member './control' not found in control.tar"@,
    ) {
        Ok(e) => Ok(e.1),
        Err(err) => Err(err),
    }
}

/// The bytes of the `control` file of a `.deb`; an archive whose member headers refer
/// past the end of its GNU name table (or give a number with bytes outside ASCII) is
/// refused before its members are read.
pub open spec fn deb_control(data: Seq<u8>) -> Result<Seq<u8>, CompatErrorView> {
    if !ar_supported(data) {
        Err(CompatErrorView::Archive("member header refers outside the name table in .deb"@))
    } else {
        match pick_entry(ar_listing(data), MemberKind::ControlTar, "control.tar not found in .deb"@) {
            Ok(e) => control_in_tar(e.0.unwrap(), e.1),
            Err(err) => Err(err),
        }
    }
}

/// The package described by a `.deb` file's bytes.
pub open spec fn deb_parse(data: Seq<u8>) -> Result<ForeignPackageView, CompatErrorView> {
    match deb_control(data) {
        Err(e) => Err(e),
        Ok(c) => match control_result(c) {
            Err(e) => Err(e),
            Ok(log) => deb_package(log),
        },
    }
}

/// Undoes the compression of a `control.tar*` member, chosen by its name.
fn decompress(name: &Vec<char>, data: &[u8]) -> (res: Decoded)
    ensures
        decoded_view(res) == decompressed(name@, data@),
{
    if ends_with_str(name, ".zst") {
        zstd_decode(data)
    } else if ends_with_str(name, ".gz") {
        gzip_decode(data)
    } else if ends_with_str(name, ".bz2") {
        bzip2_decode(data)
    } else {
        Decoded { data: copy_bytes(data), error: None }
    }
}

/// The bytes of the `control` file inside a `control.tar*` member named `name`.
pub fn decompress_tar_member(name: &str, data: &[u8]) -> (res: Result<Vec<u8>, CompatError>)
    ensures
        bytes_result_view(res) == control_in_tar(name@, data@),
{
    let nc = chars_of(name);
    let dec = decompress(&nc, data);
    let listing = tar_members(dec.data.as_slice());
    let i = pick_streamed_member(&dec, &listing, MemberKind::ControlFile, "member './control' not found in control.tar")?;
    Ok(listing.entries[i].data.clone())
}

/// The bytes of the `control` file of a `.deb` held in `data`.
pub fn extract_control_tar(data: &[u8]) -> (res: Result<Vec<u8>, CompatError>)
    ensures
        bytes_result_view(res) == deb_control(data@),
{
    if !ar_archive_supported(data) {
        return Err(CompatError::Archive(owned("member header refers outside the name table in .deb")));
    }
    let listing = ar_members(data);
    let i = pick_member(&listing, MemberKind::ControlTar, "control.tar not found in .deb")?;
    let e = &listing.entries[i];
    match &e.name {
        Some(n) => decompress_tar_member(n.as_str(), e.data.as_slice()),
        None => Err(CompatError::Archive(owned("control.tar not found in .deb"))),
    }
}

/// Reads the package described by the `.deb` held in `data`.
pub fn parse(data: &[u8]) -> (res: Result<ForeignPackage, CompatError>)
    ensures
        package_result_view(res) == deb_parse(data@),
{
    let control = extract_control_tar(data)?;
    let fields = parse_control_bytes(control.as_slice())?;
    build_package(&fields)
}

} // verus!
