//! The common description of a foreign package, detection of its format from the
//! file name, dispatch to the format's parser, and rendering as a manifest.

use vstd::prelude::*;
use crate::text::{
    append, append_str, append_string, chars_of, ends_with, ends_with_str, join, join_v, owned,
    slice_of, split_char, split_char_v, string_of, views,
};
use crate::compat::error::{CompatError, CompatErrorView};
use crate::compat::{apk, arch, deb, rpm};
use crate::compat::apk::apk_parse;
use crate::compat::arch::arch_parse;
use crate::compat::deb::deb_parse;
use crate::compat::rpm::rpm_parse;

verus! {

/// The foreign package formats that can be converted.
#[derive(Debug, Clone, PartialEq, Eq, Structural)]
pub enum ForeignFormat {
    Deb,
    Rpm,
    Apk,
    Arch,
}

/// A dependency of a foreign package.
#[derive(Debug, Clone)]
pub struct ForeignDep {
    pub name: String,
    pub version: Option<String>,
    pub optional: bool,
}

/// A foreign package described by the fields an `.fpkg` manifest needs.
#[derive(Debug, Clone)]
pub struct ForeignPackage {
    pub format: String,
    pub name: String,
    pub version: String,
    pub release: String,
    pub arch: String,
    pub summary: String,
    pub description: String,
    pub license: String,
    pub homepage: String,
    pub maintainer: String,
    pub depends: Vec<ForeignDep>,
    pub conflicts: Vec<String>,
    pub provides: Vec<String>,
    pub installed_size: u64,
}

/// The plain value of a `ForeignDep`.
pub struct ForeignDepView {
    pub name: Seq<char>,
    pub version: Option<Seq<char>>,
    pub optional: bool,
}

/// The plain value of a `ForeignPackage`.
pub struct ForeignPackageView {
    pub format: Seq<char>,
    pub name: Seq<char>,
    pub version: Seq<char>,
    pub release: Seq<char>,
    pub arch: Seq<char>,
    pub summary: Seq<char>,
    pub description: Seq<char>,
    pub license: Seq<char>,
    pub homepage: Seq<char>,
    pub maintainer: Seq<char>,
    pub depends: Seq<ForeignDepView>,
    pub conflicts: Seq<Seq<char>>,
    pub provides: Seq<Seq<char>>,
    pub installed_size: u64,
}

/// The characters of each string.
pub open spec fn strings_view(v: Seq<String>) -> Seq<Seq<char>> {
    v.map_values(|s: String| s@)
}

/// The characters of an optional string.
pub open spec fn opt_view(o: Option<String>) -> Option<Seq<char>> {
    match o {
        Some(s) => Some(s@),
        None => None,
    }
}

impl View for ForeignDep {
    type V = ForeignDepView;

    open spec fn view(&self) -> ForeignDepView {
        ForeignDepView { name: self.name@, version: opt_view(self.version), optional: self.optional }
    }
}

/// The plain values of dependencies.
pub open spec fn deps_view(v: Seq<ForeignDep>) -> Seq<ForeignDepView> {
    v.map_values(|d: ForeignDep| d@)
}

impl View for ForeignPackage {
    type V = ForeignPackageView;

    open spec fn view(&self) -> ForeignPackageView {
        ForeignPackageView {
            format: self.format@,
            name: self.name@,
            version: self.version@,
            release: self.release@,
            arch: self.arch@,
            summary: self.summary@,
            description: self.description@,
            license: self.license@,
            homepage: self.homepage@,
            maintainer: self.maintainer@,
            depends: deps_view(self.depends@),
            conflicts: strings_view(self.conflicts@),
            provides: strings_view(self.provides@),
            installed_size: self.installed_size,
        }
    }
}

/// The plain value of a conversion result.
pub open spec fn package_result_view(r: Result<ForeignPackage, CompatError>) -> Result<
    ForeignPackageView,
    CompatErrorView,
> {
    match r {
        Ok(p) => Ok(p@),
        Err(e) => Err(e@),
    }
}

// ------------------------------------------------------------------ file names

/// A path component that names something: neither empty nor `.`.
pub open spec fn is_named_component(c: Seq<char>) -> bool {
    c.len() > 0 && c != seq!['.']
}

/// The last naming component among `parts`.
pub open spec fn last_named(parts: Seq<Seq<char>>) -> Option<Seq<char>>
    decreases parts.len(),
{
    if parts.len() == 0 {
        None
    } else if is_named_component(parts.last()) {
        Some(parts.last())
    } else {
        last_named(parts.drop_last())
    }
}

/// The final component of a path, unless it is `..` (`Path::file_name`).
pub open spec fn file_name(path: Seq<char>) -> Option<Seq<char>> {
    match last_named(split_char(path, '/')) {
        Some(c) => if c == seq!['.', '.'] {
            None
        } else {
            Some(c)
        },
        None => None,
    }
}

/// The last index of `c` in `s`.
pub open spec fn rfind_char(s: Seq<char>, c: char) -> Option<int>
    decreases s.len(),
{
    if s.len() == 0 {
        None
    } else if s.last() == c {
        Some(s.len() - 1)
    } else {
        rfind_char(s.drop_last(), c)
    }
}

/// The text after the last dot of the file name, when a dot follows its first
/// character (`Path::extension`).
pub open spec fn extension(path: Seq<char>) -> Option<Seq<char>> {
    match file_name(path) {
        Some(f) => match rfind_char(f, '.') {
            Some(i) => if i == 0 {
                None
            } else {
                Some(f.skip(i + 1))
            },
            None => None,
        },
        None => None,
    }
}

/// The format a file name announces by its ending.
pub open spec fn detect_format(path: Seq<char>) -> Option<ForeignFormat> {
    match file_name(path) {
        Some(n) => if ends_with(n, ".deb"@) {
            Some(ForeignFormat::Deb)
        } else if ends_with(n, ".rpm"@) {
            Some(ForeignFormat::Rpm)
        } else if ends_with(n, ".apk"@) {
            Some(ForeignFormat::Apk)
        } else if ends_with(n, ".pkg.tar.zst"@) || ends_with(n, ".pkg.tar.xz"@) || ends_with(
            n,
            ".pkg.tar.gz"@,
        ) {
            Some(ForeignFormat::Arch)
        } else {
            None
        },
        None => None,
    }
}

/// The final component of `path`, unless it is `..`.
pub fn file_name_v(path: &Vec<char>) -> (res: Option<Vec<char>>)
    ensures
        match res {
            Some(n) => file_name(path@) == Some(n@),
            None => file_name(path@) is None,
        },
{
    let parts = split_char_v(path, '/');
    let ghost ps = split_char(path@, '/');
    let mut i = parts.len();
    assert(ps.take(ps.len() as int) =~= ps);
    while i > 0
        invariant
            i <= parts.len(),
            ps == split_char(path@, '/'),
            views(parts@) == ps,
            last_named(ps) == last_named(ps.take(i as int)),
        decreases i,
    {
        let c = &parts[i - 1];
        proof {
            assert(ps.take(i as int).drop_last() =~= ps.take(i - 1));
            assert(ps.take(i as int).last() == c@);
        }
        if c.len() > 0 && !(c.len() == 1 && c[0] == '.') {
            proof {
                assert(is_named_component(c@)) by {
                    if c@ == seq!['.'] {
                        assert(c@[0] == '.');
                    }
                }
            }
            if c.len() == 2 && c[0] == '.' && c[1] == '.' {
                assert(c@ =~= seq!['.', '.']);
                return None;
            }
            let r = slice_of(c, 0, c.len());
            assert(r@ != seq!['.', '.']) by {
                if r@ == seq!['.', '.'] {
                    assert(r@.len() == 2 && r@[0] == '.' && r@[1] == '.');
                }
            }
            return Some(r);
        }
        assert(!is_named_component(c@)) by {
            if c.len() > 0 {
                assert(c@ =~= seq!['.']);
            }
        }
        i = i - 1;
    }
    assert(ps.take(0) =~= Seq::<Seq<char>>::empty());
    None
}

/// The extension of the file name of `path`.
pub fn extension_v(path: &Vec<char>) -> (res: Option<Vec<char>>)
    ensures
        match res {
            Some(e) => extension(path@) == Some(e@),
            None => extension(path@) is None,
        },
{
    match file_name_v(path) {
        Some(f) => {
            let mut i = f.len();
            assert(f@.take(f@.len() as int) =~= f@);
            while i > 0
                invariant
                    i <= f.len(),
                    file_name(path@) == Some(f@),
                    rfind_char(f@, '.') == rfind_char(f@.take(i as int), '.'),
                decreases i,
            {
                assert(f@.take(i as int).drop_last() =~= f@.take(i - 1));
                assert(f@.take(i as int).last() == f@[i - 1]);
                if f[i - 1] == '.' {
                    if i - 1 == 0 {
                        return None;
                    }
                    return Some(slice_of(&f, i, f.len()));
                }
                i = i - 1;
            }
            assert(f@.take(0) =~= Seq::<char>::empty());
            None
        },
        None => None,
    }
}

impl ForeignFormat {
    /// The format that the file name of `path` announces, if any.
    pub fn detect(path: &str) -> (res: Option<ForeignFormat>)
        ensures
            res == detect_format(path@),
    {
        let p = chars_of(path);
        let name = match file_name_v(&p) {
            Some(n) => n,
            None => return None,
        };
        if ends_with_str(&name, ".deb") {
            return Some(ForeignFormat::Deb);
        }
        if ends_with_str(&name, ".rpm") {
            return Some(ForeignFormat::Rpm);
        }
        if ends_with_str(&name, ".apk") {
            return Some(ForeignFormat::Apk);
        }
        if ends_with_str(&name, ".pkg.tar.zst") || ends_with_str(&name, ".pkg.tar.xz")
            || ends_with_str(&name, ".pkg.tar.gz") {
            return Some(ForeignFormat::Arch);
        }
        None
    }
}

/// The error for a file whose format is not recognised: its extension, or `unknown`.
pub open spec fn unsupported_error(path: Seq<char>) -> CompatErrorView {
    CompatErrorView::UnsupportedFormat(
        match extension(path) {
            Some(e) => e,
            None => "unknown"@,
        },
    )
}

/// The error for a file whose format is not recognised.
pub fn unsupported_format(path: &str) -> (res: CompatError)
    ensures
        res@ == unsupported_error(path@),
{
    let p = chars_of(path);
    match extension_v(&p) {
        Some(e) => CompatError::UnsupportedFormat(string_of(&e)),
        None => CompatError::UnsupportedFormat(owned("unknown")),
    }
}

// ------------------------------------------------------------------ manifest

/// `true` or `false`.
pub open spec fn bool_text(b: bool) -> Seq<char> {
    if b {
        "true"@
    } else {
        "false"@
    }
}

/// The `[[dependencies]]` table of one dependency.
pub open spec fn dep_table(d: ForeignDepView) -> Seq<char> {
    "[[dependencies]]\nname = \""@ + d.name + "\"\nversion = \""@ + (match d.version {
        Some(v) => v,
        None => "*"@,
    }) + "\"\noptional = "@ + bool_text(d.optional) + "\n"@
}

/// The dependency tables, separated by empty lines.
pub open spec fn deps_toml(deps: Seq<ForeignDepView>) -> Seq<char> {
    join(deps.map_values(|d: ForeignDepView| dep_table(d)), "\n"@)
}

/// The `manifest.toml` text for a foreign package.
pub open spec fn manifest_toml(p: ForeignPackageView) -> Seq<char> {
    "[package]\nname        = \""@ + p.name + "\"\nversion     = \""@ + p.version
        + "\"\nrelease     = \""@ + p.release + "\"\narch        = \""@ + p.arch
        + "\"\nlicense     = \""@ + p.license + "\"\nsummary     = \""@ + p.summary
        + "\"\ndescription = \"\"\"\n"@ + p.description + "\n\"\"\"\nhomepage    = \""@
        + p.homepage + "\"\nmaintainer  = \""@ + p.maintainer
        + "\"\n\n[compat]\norigin_format = \""@ + p.format + "\"\n\n"@ + deps_toml(p.depends)
        + "\n"@
}

/// The `[[dependencies]]` table of one dependency.
fn dep_table_v(d: &ForeignDep) -> (res: Vec<char>)
    ensures
        res@ == dep_table(d@),
{
    let mut out: Vec<char> = Vec::new();
    append_str(&mut out, "[[dependencies]]\nname = \"");
    append_string(&mut out, &d.name);
    append_str(&mut out, "\"\nversion = \"");
    match &d.version {
        Some(v) => append_string(&mut out, v),
        None => append_str(&mut out, "*"),
    }
    append_str(&mut out, "\"\noptional = ");
    if d.optional {
        append_str(&mut out, "true");
    } else {
        append_str(&mut out, "false");
    }
    append_str(&mut out, "\n");
    out
}

/// Renders a foreign package as the text of its `manifest.toml`.
pub fn to_manifest_toml(pkg: &ForeignPackage) -> (res: String)
    ensures
        res@ == manifest_toml(pkg@),
{
    let mut tables: Vec<Vec<char>> = Vec::new();
    for i in 0..pkg.depends.len()
        invariant
            views(tables@) == deps_view(pkg.depends@).take(i as int).map_values(
                |d: ForeignDepView| dep_table(d),
            ),
    {
        let ghost before = views(tables@);
        let t = dep_table_v(&pkg.depends[i]);
        let ghost tv = t@;
        tables.push(t);
        assert(views(tables@) =~= before.push(tv));
        assert(before.push(tv) =~= deps_view(pkg.depends@).take(i + 1).map_values(
            |d: ForeignDepView| dep_table(d),
        ));
    }
    assert(deps_view(pkg.depends@).take(pkg.depends.len() as int) =~= deps_view(pkg.depends@));
    let sep = chars_of("\n");
    let deps = join_v(&tables, &sep);
    let mut out: Vec<char> = Vec::new();
    append_str(&mut out, "[package]\nname        = \"");
    append_string(&mut out, &pkg.name);
    append_str(&mut out, "\"\nversion     = \"");
    append_string(&mut out, &pkg.version);
    append_str(&mut out, "\"\nrelease     = \"");
    append_string(&mut out, &pkg.release);
    append_str(&mut out, "\"\narch        = \"");
    append_string(&mut out, &pkg.arch);
    append_str(&mut out, "\"\nlicense     = \"");
    append_string(&mut out, &pkg.license);
    append_str(&mut out, "\"\nsummary     = \"");
    append_string(&mut out, &pkg.summary);
    append_str(&mut out, "\"\ndescription = \"\"\"\n");
    append_string(&mut out, &pkg.description);
    append_str(&mut out, "\n\"\"\"\nhomepage    = \"");
    append_string(&mut out, &pkg.homepage);
    append_str(&mut out, "\"\nmaintainer  = \"");
    append_string(&mut out, &pkg.maintainer);
    append_str(&mut out, "\"\n\n[compat]\norigin_format = \"");
    append_string(&mut out, &pkg.format);
    append_str(&mut out, "\"\n\n");
    append(&mut out, &deps);
    append_str(&mut out, "\n");
    string_of(&out)
}


// ------------------------------------------------------------------ conversion

/// The package a file describes, from its path and what reading it gave: the format
/// comes from the file name; the file's contents are needed only for a known format.
pub open spec fn convert_result(path: Seq<char>, contents: Result<Seq<u8>, Seq<char>>) -> Result<
    ForeignPackageView,
    CompatErrorView,
> {
    match detect_format(path) {
        None => Err(unsupported_error(path)),
        Some(f) => match contents {
            Err(m) => Err(CompatErrorView::Io(m)),
            Ok(d) => match f {
                ForeignFormat::Deb => deb_parse(d),
                ForeignFormat::Rpm => rpm_parse(d),
                ForeignFormat::Apk => apk_parse(d),
                ForeignFormat::Arch => arch_parse(file_name(path).unwrap(), d),
            },
        },
    }
}

/// The plain value of the result of reading a file.
pub open spec fn contents_view(r: Result<Vec<u8>, String>) -> Result<Seq<u8>, Seq<char>> {
    match r {
        Ok(d) => Ok(d@),
        Err(m) => Err(m@),
    }
}

/// Converts the foreign package at `path`, given what reading that file gave: its
/// bytes, or the message of the error that reading it raised.
pub fn convert(path: &str, contents: Result<Vec<u8>, String>) -> (res: Result<ForeignPackage, CompatError>)
    ensures
        package_result_view(res) == convert_result(path@, contents_view(contents)),
{
    let fmt = match ForeignFormat::detect(path) {
        Some(f) => f,
        None => return Err(unsupported_format(path)),
    };
    let data = match contents {
        Ok(d) => d,
        Err(m) => return Err(CompatError::Io(m)),
    };
    match fmt {
        ForeignFormat::Deb => deb::parse(data.as_slice()),
        ForeignFormat::Rpm => rpm::parse(data.as_slice()),
        ForeignFormat::Apk => apk::parse(data.as_slice()),
        ForeignFormat::Arch => {
            let p = chars_of(path);
            match file_name_v(&p) {
                Some(n) => {
                    let name = string_of(&n);
                    arch::parse(name.as_str(), data.as_slice())
                },
                None => Err(unsupported_format(path)),
            }
        },
    }
}

} // verus!
