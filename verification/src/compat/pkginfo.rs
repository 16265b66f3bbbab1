//! The `.PKGINFO` file of Alpine and Arch packages: lines of `key = value`.

use vstd::prelude::*;
use crate::text::{
    chars_of, find_char, find_char_v, lines, lines_v, owned, parse_u64, parse_u64_v, slice_of,
    split_char, split_once, split_once_str, starts_with, string_of, trim, trim_start_char, trim_start_char_v,
    trim_v, views,
};
use crate::compat::convert::{deps_view, strings_view, ForeignDep, ForeignDepView};

verus! {

/// The fields read from a `.PKGINFO` file.
pub struct PkgInfo {
    pub name: String,
    pub version: String,
    pub arch: String,
    pub desc: String,
    pub url: String,
    pub license: String,
    pub size: u64,
    pub depends: Vec<ForeignDep>,
    pub conflicts: Vec<String>,
    pub provides: Vec<String>,
}

/// The plain value of `PkgInfo`.
pub struct PkgInfoView {
    pub name: Seq<char>,
    pub version: Seq<char>,
    pub arch: Seq<char>,
    pub desc: Seq<char>,
    pub url: Seq<char>,
    pub license: Seq<char>,
    pub size: u64,
    pub depends: Seq<ForeignDepView>,
    pub conflicts: Seq<Seq<char>>,
    pub provides: Seq<Seq<char>>,
}

impl View for PkgInfo {
    type V = PkgInfoView;

    open spec fn view(&self) -> PkgInfoView {
        PkgInfoView {
            name: self.name@,
            version: self.version@,
            arch: self.arch@,
            desc: self.desc@,
            url: self.url@,
            license: self.license@,
            size: self.size,
            depends: deps_view(self.depends@),
            conflicts: strings_view(self.conflicts@),
            provides: strings_view(self.provides@),
        }
    }
}

/// Nothing read yet.
pub open spec fn pkginfo_empty() -> PkgInfoView {
    PkgInfoView {
        name: Seq::empty(),
        version: Seq::empty(),
        arch: Seq::empty(),
        desc: Seq::empty(),
        url: Seq::empty(),
        license: Seq::empty(),
        size: 0,
        depends: Seq::empty(),
        conflicts: Seq::empty(),
        provides: Seq::empty(),
    }
}

/// A `depend` value: `name` or `name>version`, where `=` signs that open the
/// version are dropped.
pub open spec fn pkginfo_dep(v: Seq<char>) -> ForeignDepView {
    match find_char(v, '>') {
        Some(i) => ForeignDepView {
            name: v.take(i),
            version: Some(trim_start_char(v.skip(i + 1), '=')),
            optional: false,
        },
        None => ForeignDepView { name: v, version: None, optional: false },
    }
}

/// The fields after a setting of key `k` to `v`; a key that is not known leaves them.
pub open spec fn pkginfo_assign(st: PkgInfoView, k: Seq<char>, v: Seq<char>) -> PkgInfoView {
    if k == "pkgname"@ {
        PkgInfoView { name: v, ..st }
    } else if k == "pkgver"@ {
        PkgInfoView { version: v, ..st }
    } else if k == "arch"@ {
        PkgInfoView { arch: v, ..st }
    } else if k == "pkgdesc"@ {
        PkgInfoView { desc: v, ..st }
    } else if k == "url"@ {
        PkgInfoView { url: v, ..st }
    } else if k == "license"@ {
        PkgInfoView { license: v, ..st }
    } else if k == "size"@ {
        PkgInfoView {
            size: match parse_u64(v) {
                Some(n) => n,
                None => 0,
            },
            ..st
        }
    } else if k == "depend"@ {
        PkgInfoView { depends: st.depends.push(pkginfo_dep(v)), ..st }
    } else if k == "conflict"@ {
        PkgInfoView { conflicts: st.conflicts.push(v), ..st }
    } else if k == "provides"@ {
        PkgInfoView { provides: st.provides.push(v), ..st }
    } else {
        st
    }
}

/// The fields after one more line: comments, blank lines and lines without ` = ` are
/// skipped; otherwise key and value are trimmed.
pub open spec fn pkginfo_step(st: PkgInfoView, line: Seq<char>) -> PkgInfoView {
    let l = trim(line);
    if starts_with(l, "#"@) || l.len() == 0 {
        st
    } else {
        match split_once(l, " = "@) {
            Some(kv) => pkginfo_assign(st, trim(kv.0), trim(kv.1)),
            None => st,
        }
    }
}

/// The fields read from a sequence of lines.
pub open spec fn pkginfo_fold(ls: Seq<Seq<char>>) -> PkgInfoView
    decreases ls.len(),
{
    if ls.len() == 0 {
        pkginfo_empty()
    } else {
        pkginfo_step(pkginfo_fold(ls.drop_last()), ls.last())
    }
}

/// The fields read from the text of a `.PKGINFO` file.
pub open spec fn pkginfo_fields(text: Seq<char>) -> PkgInfoView {
    pkginfo_fold(lines(text))
}

/// A `depend` value as a dependency.
fn pkginfo_dep_v(v: &Vec<char>) -> (res: ForeignDep)
    ensures
        res@ == pkginfo_dep(v@),
{
    match find_char_v(v, '>') {
        Some(i) => {
            let name = slice_of(v, 0, i);
            let rest = slice_of(v, i + 1, v.len());
            let ver = trim_start_char_v(&rest, '=');
            assert(name@ =~= v@.take(i as int));
            assert(rest@ =~= v@.skip(i + 1));
            ForeignDep { name: string_of(&name), version: Some(string_of(&ver)), optional: false }
        },
        None => ForeignDep { name: string_of(v), version: None, optional: false },
    }
}

/// Applies the setting of key `k` to `v`.
fn pkginfo_assign_v(st: &mut PkgInfo, k: &Vec<char>, v: &Vec<char>)
    ensures
        final(st)@ == pkginfo_assign(old(st)@, k@, v@),
{
    let ks = string_of(k);
    let vs = string_of(v);
    if ks == owned("pkgname") {
        st.name = vs;
    } else if ks == owned("pkgver") {
        st.version = vs;
    } else if ks == owned("arch") {
        st.arch = vs;
    } else if ks == owned("pkgdesc") {
        st.desc = vs;
    } else if ks == owned("url") {
        st.url = vs;
    } else if ks == owned("license") {
        st.license = vs;
    } else if ks == owned("size") {
        st.size = match parse_u64_v(v) {
            Some(n) => n,
            None => 0,
        };
    } else if ks == owned("depend") {
        let d = pkginfo_dep_v(v);
        let ghost before = deps_view(st.depends@);
        let ghost dv = d@;
        st.depends.push(d);
        assert(deps_view(st.depends@) =~= before.push(dv));
    } else if ks == owned("conflict") {
        let ghost before = strings_view(st.conflicts@);
        st.conflicts.push(vs);
        assert(strings_view(st.conflicts@) =~= before.push(v@));
    } else if ks == owned("provides") {
        let ghost before = strings_view(st.provides@);
        st.provides.push(vs);
        assert(strings_view(st.provides@) =~= before.push(v@));
    }
}

/// Reads the fields of the text of a `.PKGINFO` file.
pub fn scan_pkginfo(text: &str) -> (res: PkgInfo)
    ensures
        res@ == pkginfo_fields(text@),
{
    let tv = chars_of(text);
    let ls = lines_v(&tv);
    let ghost lsv = lines(text@);
    let mut st = PkgInfo {
        name: String::new(),
        version: String::new(),
        arch: String::new(),
        desc: String::new(),
        url: String::new(),
        license: String::new(),
        size: 0,
        depends: Vec::new(),
        conflicts: Vec::new(),
        provides: Vec::new(),
    };
    assert(deps_view(st.depends@) =~= Seq::<ForeignDepView>::empty());
    assert(strings_view(st.conflicts@) =~= Seq::<Seq<char>>::empty());
    assert(strings_view(st.provides@) =~= Seq::<Seq<char>>::empty());
    for i in 0..ls.len()
        invariant
            views(ls@) == lsv,
            lsv == lines(text@),
            st@ == pkginfo_fold(lsv.take(i as int)),
    {
        proof {
            assert(lsv.take(i + 1).drop_last() =~= lsv.take(i as int));
            assert(lsv.take(i + 1).last() == ls@[i as int]@);
        }
        let l = trim_v(&ls[i]);
        let comment = l.len() > 0 && l[0] == '#';
        assert(comment == starts_with(l@, "#"@)) by {
            reveal_strlit("#");
            if l@.len() > 0 {
                if l@[0] == '#' {
                    assert(l@.take(1) =~= "#"@);
                } else {
                    assert(l@.take(1)[0] != "#"@[0]);
                }
            }
        }
        if !comment && l.len() > 0 {
            match split_once_str(&l, " = ") {
                Some((k, v)) => {
                    let kt = trim_v(&k);
                    let vt = trim_v(&v);
                    pkginfo_assign_v(&mut st, &kt, &vt);
                },
                None => {},
            }
        }
    }
    assert(lsv.take(ls.len() as int) =~= lsv);
    st
}

// ------------------------------------------------------------------ laws

/// Splitting `t + l` where `t` ends with the separator (or is empty) and `l` holds none:
/// the pieces of `t`, with its empty last piece replaced by `l`.
proof fn lemma_split_append_piece(t: Seq<char>, l: Seq<char>, sep: char)
    requires
        t.len() == 0 || t.last() == sep,
        !l.contains(sep),
    ensures
        split_char(t, sep).len() >= 1,
        split_char(t, sep).last().len() == 0,
        split_char(t + l, sep) == split_char(t, sep).drop_last().push(l),
    decreases l.len(),
{
    crate::text::lemma_split_nonempty(t, sep);
    if t.len() > 0 {
        crate::text::lemma_split_nonempty(t.drop_last(), sep);
        assert(split_char(t, sep) == split_char(t.drop_last(), sep).push(Seq::<char>::empty()));
    } else {
        assert(split_char(t, sep) == seq![Seq::<char>::empty()]);
    }
    if l.len() == 0 {
        assert(t + l =~= t);
        assert(split_char(t, sep).last() =~= l);
        assert(split_char(t, sep).drop_last().push(l) =~= split_char(t, sep));
    } else {
        let l0 = l.drop_last();
        assert(!l0.contains(sep)) by {
            if l0.contains(sep) {
                let k = choose|k: int| 0 <= k < l0.len() && l0[k] == sep;
                assert(l[k] == sep);
            }
        }
        lemma_split_append_piece(t, l0, sep);
        assert((t + l).drop_last() =~= t + l0);
        assert((t + l).last() == l.last());
        assert(l.last() != sep) by {
            assert(l[l.len() - 1] == l.last());
        }
        assert(l0.push(l.last()) =~= l);
        let p = split_char(t, sep);
        assert(p.drop_last().push(l0).update(p.len() - 1, l0.push(l.last())) =~= p.drop_last().push(l));
    }
}

/// Appending a line (without a line end of its own) and a line end to text that ends a
/// line adds that line, less a final carriage return, to its lines.
pub proof fn lemma_lines_append(t: Seq<char>, l: Seq<char>)
    requires
        t.len() == 0 || t.last() == '\n',
        !l.contains('\n'),
    ensures
        lines(t + l + seq!['\n']) == lines(t).push(crate::text::strip_cr(l)),
{
    lemma_split_append_piece(t, l, '\n');
    let p = split_char(t, '\n');
    let s = t + l + seq!['\n'];
    assert(s.drop_last() =~= t + l);
    assert(s.last() == '\n');
    let q = split_char(s, '\n');
    assert(q == p.drop_last().push(l).push(Seq::<char>::empty()));
    assert(q.take(q.len() - 1) =~= p.drop_last().push(l));
    assert(p.take(p.len() - 1) =~= p.drop_last());
    assert(p.drop_last().push(l).map_values(|x: Seq<char>| crate::text::strip_cr(x)) =~= p.drop_last().map_values(
        |x: Seq<char>| crate::text::strip_cr(x),
    ).push(crate::text::strip_cr(l)));
}

/// Appending a line to a `.PKGINFO` reads that line after the ones before it.
pub proof fn lemma_pkginfo_append_line(t: Seq<char>, l: Seq<char>)
    requires
        t.len() == 0 || t.last() == '\n',
        !l.contains('\n'),
    ensures
        pkginfo_fields(t + l + seq!['\n']) == pkginfo_step(pkginfo_fields(t), crate::text::strip_cr(l)),
{
    lemma_lines_append(t, l);
    let ls = lines(t);
    assert(ls.push(crate::text::strip_cr(l)).drop_last() =~= ls);
}

/// Text whose first and last characters are not white space is its own trim.
proof fn lemma_trim_fixed(s: Seq<char>)
    requires
        s.len() > 0,
        !crate::text::unicode_white_space(s[0]),
        !crate::text::unicode_white_space(s.last()),
    ensures
        trim(s) == s,
{
    assert(crate::text::trim_start(s) == s);
}

/// A line `k = v`, with a key that has no space, splits at its first ` = `.
proof fn lemma_split_key_line(k: Seq<char>, v: Seq<char>)
    requires
        !k.contains(' '),
    ensures
        split_once(k + " = "@ + v, " = "@) == Some((k, v)),
{
    reveal_strlit(" = ");
    let pat = " = "@;
    let l = k + pat + v;
    let i = k.len() as int;
    assert(l.subrange(i, i + 3) =~= pat);
    assert forall|j: int| 0 <= j < i implies !crate::text::occurs_at(l, pat, j) by {
        assert(l[j] == k[j]);
        if crate::text::occurs_at(l, pat, j) {
            assert(l.subrange(j, j + 3)[0] == l[j]);
        }
    }
    assert(crate::text::first_occurrence(l, pat, i));
    let c = choose|c: int| crate::text::first_occurrence(l, pat, c);
    crate::text::lemma_first_occurrence_unique(l, pat, c, i);
    assert(l.take(i) =~= k);
    assert(l.skip(i + 3) =~= v);
}

/// Reading the line `k = v` (no space in `k`, neither `k` nor `v` with white space at
/// its ends, `k` not a comment) assigns `v` to `k`.
proof fn lemma_pkginfo_key_line(st: PkgInfoView, k: Seq<char>, v: Seq<char>)
    requires
        k.len() > 0,
        !k.contains(' '),
        k[0] != '#',
        trim(k) == k,
        trim(v) == v,
        v.len() > 0,
        !crate::text::unicode_white_space(k[0]),
        !crate::text::unicode_white_space(v.last()),
        v.last() != '\r',
    ensures
        pkginfo_step(st, crate::text::strip_cr(k + " = "@ + v)) == pkginfo_assign(st, k, v),
{
    reveal_strlit(" = ");
    reveal_strlit("#");
    let l = k + " = "@ + v;
    assert(l.last() == v.last());
    assert(l[0] == k[0]);
    assert(crate::text::strip_cr(l) == l);
    lemma_trim_fixed(l);
    assert(!starts_with(l, "#"@)) by {
        assert(l.take(1)[0] == k[0]);
    }
    lemma_split_key_line(k, v);
}

/// The decimal rendering of a number reads back as that number.
proof fn lemma_parse_decimal(n: u64)
    ensures
        crate::text::parse_u64(crate::text::decimal(n as nat)) == Some(n),
        crate::text::decimal(n as nat).len() >= 1,
        forall|i: int| 0 <= i < crate::text::decimal(n as nat).len() ==> '0' <= #[trigger] crate::text::decimal(n as nat)[i] <= '9',
{
    let d = crate::text::decimal(n as nat);
    crate::transaction::generation::lemma_decimal_digits(n as nat);
    assert('0' <= d[0] <= '9');
    assert(d[0] != '+');
}

/// Setting `size` to a number's text sets the size to that number and nothing else.
proof fn lemma_assign_size(st: PkgInfoView, d: Seq<char>, n: u64)
    requires
        crate::text::parse_u64(d) == Some(n),
    ensures
        pkginfo_assign(st, "size"@, d) == (PkgInfoView { size: n, ..st }),
{
    reveal_strlit("size");
    reveal_strlit("pkgname");
    reveal_strlit("pkgver");
    reveal_strlit("arch");
    reveal_strlit("pkgdesc");
    reveal_strlit("url");
    reveal_strlit("license");
    assert("size"@[0] != "pkgname"@[0] || "size"@.len() != "pkgname"@.len() || "size"@[1] != "pkgname"@[1]);
    assert("size"@ != "pkgname"@);
    assert("size"@[0] != "pkgver"@[0] || "size"@.len() != "pkgver"@.len() || "size"@[1] != "pkgver"@[1]);
    assert("size"@ != "pkgver"@);
    assert("size"@[0] != "arch"@[0] || "size"@.len() != "arch"@.len() || "size"@[1] != "arch"@[1]);
    assert("size"@ != "arch"@);
    assert("size"@[0] != "pkgdesc"@[0] || "size"@.len() != "pkgdesc"@.len() || "size"@[1] != "pkgdesc"@[1]);
    assert("size"@ != "pkgdesc"@);
    assert("size"@[0] != "url"@[0] || "size"@.len() != "url"@.len() || "size"@[1] != "url"@[1]);
    assert("size"@ != "url"@);
    assert("size"@[0] != "license"@[0] || "size"@.len() != "license"@.len() || "size"@[1] != "license"@[1]);
    assert("size"@ != "license"@);
}

/// Setting `depend` to a value adds one dependency read from it and changes nothing else.
proof fn lemma_assign_depend(st: PkgInfoView, v: Seq<char>)
    ensures
        pkginfo_assign(st, "depend"@, v) == (PkgInfoView { depends: st.depends.push(pkginfo_dep(v)), ..st }),
{
    reveal_strlit("depend");
    reveal_strlit("size");
    reveal_strlit("pkgname");
    reveal_strlit("pkgver");
    reveal_strlit("arch");
    reveal_strlit("pkgdesc");
    reveal_strlit("url");
    reveal_strlit("license");
    assert("depend"@[0] != "pkgname"@[0] || "depend"@.len() != "pkgname"@.len() || "depend"@[1] != "pkgname"@[1]);
    assert("depend"@ != "pkgname"@);
    assert("depend"@[0] != "pkgver"@[0] || "depend"@.len() != "pkgver"@.len() || "depend"@[1] != "pkgver"@[1]);
    assert("depend"@ != "pkgver"@);
    assert("depend"@[0] != "arch"@[0] || "depend"@.len() != "arch"@.len() || "depend"@[1] != "arch"@[1]);
    assert("depend"@ != "arch"@);
    assert("depend"@[0] != "pkgdesc"@[0] || "depend"@.len() != "pkgdesc"@.len() || "depend"@[1] != "pkgdesc"@[1]);
    assert("depend"@ != "pkgdesc"@);
    assert("depend"@[0] != "url"@[0] || "depend"@.len() != "url"@.len() || "depend"@[1] != "url"@[1]);
    assert("depend"@ != "url"@);
    assert("depend"@[0] != "license"@[0] || "depend"@.len() != "license"@.len() || "depend"@[1] != "license"@[1]);
    assert("depend"@ != "license"@);
    assert("depend"@[0] != "size"@[0] || "depend"@.len() != "size"@.len() || "depend"@[1] != "size"@[1]);
    assert("depend"@ != "size"@);
}

/// `k = v` has no line end when neither `k` nor `v` has one.
proof fn lemma_key_line_one_line(k: Seq<char>, v: Seq<char>)
    requires
        !k.contains('\n'),
        !v.contains('\n'),
    ensures
        !(k + " = "@ + v).contains('\n'),
{
    reveal_strlit(" = ");
    let l = k + " = "@ + v;
    if l.contains('\n') {
        let j = choose|j: int| 0 <= j < l.len() && l[j] == '\n';
        if j < k.len() {
            assert(k[j] == l[j]);
        } else if j >= k.len() + 3 {
            assert(v[j - k.len() - 3] == l[j]);
        }
    }
}

/// Appending the line `size = N` to a `.PKGINFO` makes its size `N` and changes nothing
/// else that is read from it.
pub proof fn lemma_pkginfo_size_line(t: Seq<char>, n: u64)
    requires
        t.len() == 0 || t.last() == '\n',
    ensures
        pkginfo_fields(t + ("size"@ + " = "@ + crate::text::decimal(n as nat)) + seq!['\n'])
            == (PkgInfoView { size: n, ..pkginfo_fields(t) }),
{
    reveal_strlit("size");
    let d = crate::text::decimal(n as nat);
    lemma_parse_decimal(n);
    assert(!d.contains('\n'));
    assert(!"size"@.contains('\n'));
    assert(!"size"@.contains(' '));
    lemma_key_line_one_line("size"@, d);
    lemma_pkginfo_append_line(t, "size"@ + " = "@ + d);
    assert('0' <= d[d.len() - 1] <= '9');
    lemma_trim_fixed("size"@);
    lemma_trim_fixed(d);
    lemma_pkginfo_key_line(pkginfo_fields(t), "size"@, d);
    lemma_assign_size(pkginfo_fields(t), d, n);
}

/// Appending the line `depend = X` (X a name without `>` and without white space at
/// its ends) to a `.PKGINFO` adds exactly one dependency, on X with no version, after the
/// ones before it, and changes nothing else that is read from it.
pub proof fn lemma_pkginfo_depend_line(t: Seq<char>, x: Seq<char>)
    requires
        t.len() == 0 || t.last() == '\n',
        x.len() > 0,
        !crate::text::unicode_white_space(x[0]),
        !crate::text::unicode_white_space(x.last()),
        !x.contains('\n'),
        !x.contains('>'),
        x.last() != '\r',
    ensures
        ({
            let before = pkginfo_fields(t);
            let after = pkginfo_fields(t + ("depend"@ + " = "@ + x) + seq!['\n']);
            &&& after.depends.len() == before.depends.len() + 1
            &&& after.depends == before.depends.push((ForeignDepView { name: x, version: None, optional: false }))
            &&& after == (PkgInfoView { depends: after.depends, ..before })
        }),
{
    reveal_strlit("depend");
    assert(!"depend"@.contains('\n'));
    assert(!"depend"@.contains(' '));
    lemma_key_line_one_line("depend"@, x);
    lemma_pkginfo_append_line(t, "depend"@ + " = "@ + x);
    lemma_trim_fixed("depend"@);
    lemma_trim_fixed(x);
    lemma_pkginfo_key_line(pkginfo_fields(t), "depend"@, x);
    lemma_assign_depend(pkginfo_fields(t), x);
    assert(find_char(x, '>') is None) by {
        if exists|i: int| crate::text::first_occurrence(x, seq!['>'], i) {
            let i = choose|i: int| crate::text::first_occurrence(x, seq!['>'], i);
            assert(x.subrange(i, i + 1)[0] == x[i]);
        }
    }
}

/// Appending a line `k = v`, whose key has no space or white space at its ends and
/// whose value has no line end and no white space at its ends, reads as setting `k` to `v`.
proof fn lemma_pkginfo_plain_line(t: Seq<char>, k: Seq<char>, v: Seq<char>)
    requires
        t.len() == 0 || t.last() == '\n',
        k.len() > 0,
        k[0] != '#',
        !k.contains(' '),
        !k.contains('\n'),
        !crate::text::unicode_white_space(k[0]),
        !crate::text::unicode_white_space(k.last()),
        v.len() > 0,
        !v.contains('\n'),
        !crate::text::unicode_white_space(v[0]),
        !crate::text::unicode_white_space(v.last()),
        v.last() != '\r',
    ensures
        pkginfo_fields(t + (k + " = "@ + v) + seq!['\n']) == pkginfo_assign(pkginfo_fields(t), k, v),
{
    lemma_key_line_one_line(k, v);
    lemma_pkginfo_append_line(t, k + " = "@ + v);
    lemma_trim_fixed(k);
    lemma_trim_fixed(v);
    lemma_pkginfo_key_line(pkginfo_fields(t), k, v);
}

/// How the keys of a `.PKGINFO` are told apart.
proof fn lemma_pkginfo_keys_distinct()
    ensures
        "conflict"@ != "pkgname"@, "conflict"@ != "pkgver"@, "conflict"@ != "arch"@,
        "conflict"@ != "pkgdesc"@, "conflict"@ != "url"@, "conflict"@ != "license"@,
        "conflict"@ != "size"@, "conflict"@ != "depend"@,
        "provides"@ != "pkgname"@, "provides"@ != "pkgver"@, "provides"@ != "arch"@,
        "provides"@ != "pkgdesc"@, "provides"@ != "url"@, "provides"@ != "license"@,
        "provides"@ != "size"@, "provides"@ != "depend"@, "provides"@ != "conflict"@,
        "pkgver"@ != "pkgname"@,
{
    reveal_strlit("pkgname");
    reveal_strlit("pkgver");
    reveal_strlit("arch");
    reveal_strlit("pkgdesc");
    reveal_strlit("url");
    reveal_strlit("license");
    reveal_strlit("size");
    reveal_strlit("depend");
    reveal_strlit("conflict");
    reveal_strlit("provides");
    assert("conflict"@[0] != "pkgname"@[0] || "conflict"@.len() != "pkgname"@.len() || "conflict"@[1] != "pkgname"@[1] || "conflict"@[3] != "pkgname"@[3]);
    assert("conflict"@ != "pkgname"@);
    assert("conflict"@[0] != "pkgver"@[0] || "conflict"@.len() != "pkgver"@.len() || "conflict"@[1] != "pkgver"@[1] || "conflict"@[3] != "pkgver"@[3]);
    assert("conflict"@ != "pkgver"@);
    assert("conflict"@[0] != "arch"@[0] || "conflict"@.len() != "arch"@.len() || "conflict"@[1] != "arch"@[1] || "conflict"@[3] != "arch"@[3]);
    assert("conflict"@ != "arch"@);
    assert("conflict"@[0] != "pkgdesc"@[0] || "conflict"@.len() != "pkgdesc"@.len() || "conflict"@[1] != "pkgdesc"@[1] || "conflict"@[3] != "pkgdesc"@[3]);
    assert("conflict"@ != "pkgdesc"@);
    assert("conflict"@[0] != "url"@[0] || "conflict"@.len() != "url"@.len() || "conflict"@[1] != "url"@[1] || "conflict"@[3] != "url"@[3]);
    assert("conflict"@ != "url"@);
    assert("conflict"@[0] != "license"@[0] || "conflict"@.len() != "license"@.len() || "conflict"@[1] != "license"@[1] || "conflict"@[3] != "license"@[3]);
    assert("conflict"@ != "license"@);
    assert("conflict"@[0] != "size"@[0] || "conflict"@.len() != "size"@.len() || "conflict"@[1] != "size"@[1] || "conflict"@[3] != "size"@[3]);
    assert("conflict"@ != "size"@);
    assert("conflict"@[0] != "depend"@[0] || "conflict"@.len() != "depend"@.len() || "conflict"@[1] != "depend"@[1] || "conflict"@[3] != "depend"@[3]);
    assert("conflict"@ != "depend"@);
    assert("provides"@[0] != "pkgname"@[0] || "provides"@.len() != "pkgname"@.len() || "provides"@[1] != "pkgname"@[1] || "provides"@[3] != "pkgname"@[3]);
    assert("provides"@ != "pkgname"@);
    assert("provides"@[0] != "pkgver"@[0] || "provides"@.len() != "pkgver"@.len() || "provides"@[1] != "pkgver"@[1] || "provides"@[3] != "pkgver"@[3]);
    assert("provides"@ != "pkgver"@);
    assert("provides"@[0] != "arch"@[0] || "provides"@.len() != "arch"@.len() || "provides"@[1] != "arch"@[1] || "provides"@[3] != "arch"@[3]);
    assert("provides"@ != "arch"@);
    assert("provides"@[0] != "pkgdesc"@[0] || "provides"@.len() != "pkgdesc"@.len() || "provides"@[1] != "pkgdesc"@[1] || "provides"@[3] != "pkgdesc"@[3]);
    assert("provides"@ != "pkgdesc"@);
    assert("provides"@[0] != "url"@[0] || "provides"@.len() != "url"@.len() || "provides"@[1] != "url"@[1] || "provides"@[3] != "url"@[3]);
    assert("provides"@ != "url"@);
    assert("provides"@[0] != "license"@[0] || "provides"@.len() != "license"@.len() || "provides"@[1] != "license"@[1] || "provides"@[3] != "license"@[3]);
    assert("provides"@ != "license"@);
    assert("provides"@[0] != "size"@[0] || "provides"@.len() != "size"@.len() || "provides"@[1] != "size"@[1] || "provides"@[3] != "size"@[3]);
    assert("provides"@ != "size"@);
    assert("provides"@[0] != "depend"@[0] || "provides"@.len() != "depend"@.len() || "provides"@[1] != "depend"@[1] || "provides"@[3] != "depend"@[3]);
    assert("provides"@ != "depend"@);
    assert("provides"@[0] != "conflict"@[0] || "provides"@.len() != "conflict"@.len() || "provides"@[1] != "conflict"@[1] || "provides"@[3] != "conflict"@[3]);
    assert("provides"@ != "conflict"@);
    assert("pkgver"@[0] != "pkgname"@[0] || "pkgver"@.len() != "pkgname"@.len() || "pkgver"@[1] != "pkgname"@[1] || "pkgver"@[3] != "pkgname"@[3]);
    assert("pkgver"@ != "pkgname"@);
}

/// The text of a value read from a `.PKGINFO` line must be plain: not empty, without
/// line ends, and without white space or a carriage return at its ends.
pub open spec fn plain_value(v: Seq<char>) -> bool {
    &&& v.len() > 0
    &&& !v.contains('\n')
    &&& !crate::text::unicode_white_space(v[0])
    &&& !crate::text::unicode_white_space(v.last())
    &&& v.last() != '\r'
}

/// The settings of a `.PKGINFO` line by line: `pkgname = X` makes the name X,
/// `pkgver = X` the version X, and `conflict = X` and `provides = X` each add exactly
/// X to the end of their list; each changes nothing else that is read.
pub proof fn lemma_pkginfo_lines(t: Seq<char>, x: Seq<char>)
    requires
        t.len() == 0 || t.last() == '\n',
        plain_value(x),
    ensures
        pkginfo_fields(t + ("pkgname"@ + " = "@ + x) + seq!['\n']) == (PkgInfoView { name: x, ..pkginfo_fields(t) }),
        pkginfo_fields(t + ("pkgver"@ + " = "@ + x) + seq!['\n']) == (PkgInfoView { version: x, ..pkginfo_fields(t) }),
        pkginfo_fields(t + ("conflict"@ + " = "@ + x) + seq!['\n']) == (PkgInfoView {
            conflicts: pkginfo_fields(t).conflicts.push(x),
            ..pkginfo_fields(t)
        }),
        pkginfo_fields(t + ("provides"@ + " = "@ + x) + seq!['\n']) == (PkgInfoView {
            provides: pkginfo_fields(t).provides.push(x),
            ..pkginfo_fields(t)
        }),
{
    reveal_strlit("pkgname");
    reveal_strlit("pkgver");
    reveal_strlit("arch");
    reveal_strlit("pkgdesc");
    reveal_strlit("url");
    reveal_strlit("license");
    reveal_strlit("size");
    reveal_strlit("depend");
    reveal_strlit("conflict");
    reveal_strlit("provides");
    lemma_pkginfo_keys_distinct();
    assert(!"pkgname"@.contains(' ') && !"pkgname"@.contains('\n'));
    assert(!"pkgver"@.contains(' ') && !"pkgver"@.contains('\n'));
    assert(!"conflict"@.contains(' ') && !"conflict"@.contains('\n'));
    assert(!"provides"@.contains(' ') && !"provides"@.contains('\n'));
    lemma_pkginfo_plain_line(t, "pkgname"@, x);
    lemma_pkginfo_plain_line(t, "pkgver"@, x);
    lemma_pkginfo_plain_line(t, "conflict"@, x);
    lemma_pkginfo_plain_line(t, "provides"@, x);
}

} // verus!
