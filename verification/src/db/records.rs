//! The rows of the `fpkg-db` database (packages, files, generations, repositories,
//! holds) and the text its command line reads and writes about them.

use vstd::prelude::*;
use crate::text::{
    append_str, append_string, chars_of, find_char, find_char_v, join, join_v, owned, slice_of,
    string_of, views,
};
use crate::transaction::paths::{home_or_root, join as join_path_v, join_path};

verus! {

/// An installed package.
#[derive(Debug, Clone)]
pub struct Package {
    pub id: i64,
    pub name: String,
    pub version: String,
    pub release: u32,
    pub arch: String,
    pub mode: String,
    pub summary: String,
    pub license: String,
    pub maintainer: String,
    pub homepage: String,
    pub install_size: i64,
    pub origin_format: String,
    pub install_date: String,
    pub manifest_hash: String,
    pub content_tree: String,
}

/// A package to register.
#[derive(Debug, Clone)]
pub struct NewPackage {
    pub name: String,
    pub version: String,
    pub release: u32,
    pub arch: String,
    pub mode: String,
    pub summary: String,
    pub license: String,
    pub maintainer: String,
    pub homepage: String,
    pub install_size: i64,
    pub origin_format: String,
    pub install_date: String,
    pub manifest_hash: String,
    pub content_tree: String,
}

/// A file of an installed package.
#[derive(Debug, Clone)]
pub struct PackageFile {
    pub id: i64,
    pub package_id: i64,
    pub path: String,
    pub hash: String,
    pub size: i64,
    pub is_config: bool,
}

/// A file to record.
#[derive(Debug, Clone)]
pub struct NewFile {
    pub path: String,
    pub hash: String,
    pub size: i64,
    pub is_config: bool,
}

/// A recorded transaction.
#[derive(Debug, Clone)]
pub struct Generation {
    pub id: i64,
    pub created_at: String,
    pub action: String,
    pub packages: Vec<GenerationEntry>,
    pub note: String,
    pub rolled_back: bool,
}

/// One package change of a recorded transaction.
#[derive(Debug, Clone)]
pub struct GenerationEntry {
    pub name: String,
    pub version: String,
    pub action: String,
}

/// A configured repository.
#[derive(Debug, Clone)]
pub struct Repo {
    pub id: i64,
    pub name: String,
    pub url: String,
    pub repo_type: String,
    pub enabled: bool,
    pub priority: i64,
    pub pubkey: String,
    pub last_sync: String,
    pub suite: String,
    pub components: String,
}

/// A repository to add.
#[derive(Debug, Clone)]
pub struct NewRepo {
    pub name: String,
    pub url: String,
    pub repo_type: String,
    pub enabled: bool,
    pub priority: i64,
    pub pubkey: String,
    pub suite: String,
    pub components: String,
}

/// A package held at a version.
#[derive(Debug, Clone)]
pub struct Hold {
    pub id: i64,
    pub name: String,
    pub version: String,
    pub reason: String,
}

/// The row counts of the database.
#[derive(Debug, Clone)]
pub struct DbStats {
    pub packages: i64,
    pub files: i64,
    pub generations: i64,
    pub repos: i64,
    pub holds: i64,
}

/// The plain value of a generation entry: name, version, action.
pub open spec fn entry_view(e: GenerationEntry) -> (Seq<char>, Seq<char>, Seq<char>) {
    (e.name@, e.version@, e.action@)
}

/// A `name:version:action` argument as an entry: the text up to the first `:`, the
/// text up to the next `:`, and the rest; `None` without two `:`.
pub open spec fn entry_of(s: Seq<char>) -> Option<(Seq<char>, Seq<char>, Seq<char>)> {
    match find_char(s, ':') {
        None => None,
        Some(i) => {
            let rest = s.skip(i + 1);
            match find_char(rest, ':') {
                None => None,
                Some(j) => Some((s.take(i), rest.take(j), rest.skip(j + 1))),
            }
        },
    }
}

/// The entries among `name:version:action` arguments, in order; malformed ones are
/// left out.
pub open spec fn entries_of(args: Seq<String>) -> Seq<(Seq<char>, Seq<char>, Seq<char>)>
    decreases args.len(),
{
    if args.len() == 0 {
        Seq::empty()
    } else {
        match entry_of(args.last()@) {
            Some(e) => entries_of(args.drop_last()).push(e),
            None => entries_of(args.drop_last()),
        }
    }
}

/// Reads a `name:version:action` argument.
pub fn parse_generation_entry(s: &str) -> (res: Option<GenerationEntry>)
    ensures
        match res {
            Some(e) => entry_of(s@) == Some(entry_view(e)),
            None => entry_of(s@) is None,
        },
{
    let c = chars_of(s);
    let found = find_char_v(&c, ':');
    if found.is_none() {
        return None;
    }
    let i = found.unwrap();
    assert(i < c.len());
    let rest = slice_of(&c, i + 1, c.len());
    assert(rest@ =~= c@.skip(i + 1));
    let found2 = find_char_v(&rest, ':');
    if found2.is_none() {
        return None;
    }
    let j = found2.unwrap();
    let name = slice_of(&c, 0, i);
    let version = slice_of(&rest, 0, j);
    let action = slice_of(&rest, j + 1, rest.len());
    assert(name@ =~= c@.take(i as int));
    assert(version@ =~= rest@.take(j as int));
    assert(action@ =~= rest@.skip(j + 1));
    Some(GenerationEntry { name: string_of(&name), version: string_of(&version), action: string_of(&action) })
}

/// The entries among `name:version:action` arguments.
pub fn parse_generation_entries(args: &Vec<String>) -> (res: Vec<GenerationEntry>)
    ensures
        res@.map_values(|e: GenerationEntry| entry_view(e)) == entries_of(args@),
{
    let mut out: Vec<GenerationEntry> = Vec::new();
    for i in 0..args.len()
        invariant
            out@.map_values(|e: GenerationEntry| entry_view(e)) == entries_of(args@.take(i as int)),
    {
        assert(args@.take(i + 1).drop_last() =~= args@.take(i as int));
        match parse_generation_entry(args[i].as_str()) {
            Some(e) => {
                let ghost before = out@.map_values(|e: GenerationEntry| entry_view(e));
                let ghost ev = entry_view(e);
                out.push(e);
                assert(out@.map_values(|e: GenerationEntry| entry_view(e)) =~= before.push(ev));
            },
            None => {},
        }
    }
    assert(args@.take(args.len() as int) =~= args@);
    out
}

/// How a generation lists its changes: `<action> <name> (<version>)`, comma-separated.
pub open spec fn changes_text(es: Seq<(Seq<char>, Seq<char>, Seq<char>)>) -> Seq<char> {
    join(
        es.map_values(|e: (Seq<char>, Seq<char>, Seq<char>)| e.2 + " "@ + e.0 + " ("@ + e.1 + ")"@),
        ", "@,
    )
}

/// The changes of a generation as one line.
pub fn changes_line(entries: &Vec<GenerationEntry>) -> (res: String)
    ensures
        res@ == changes_text(entries@.map_values(|e: GenerationEntry| entry_view(e))),
{
    let ghost es = entries@.map_values(|e: GenerationEntry| entry_view(e));
    let ghost f = |e: (Seq<char>, Seq<char>, Seq<char>)| e.2 + " "@ + e.0 + " ("@ + e.1 + ")"@;
    let mut parts: Vec<Vec<char>> = Vec::new();
    for i in 0..entries.len()
        invariant
            es == entries@.map_values(|e: GenerationEntry| entry_view(e)),
            f == (|e: (Seq<char>, Seq<char>, Seq<char>)| e.2 + " "@ + e.0 + " ("@ + e.1 + ")"@),
            views(parts@) == es.take(i as int).map_values(f),
    {
        let e = &entries[i];
        let mut p: Vec<char> = Vec::new();
        append_string(&mut p, &e.action);
        append_str(&mut p, " ");
        append_string(&mut p, &e.name);
        append_str(&mut p, " (");
        append_string(&mut p, &e.version);
        append_str(&mut p, ")");
        let ghost before = views(parts@);
        parts.push(p);
        assert(views(parts@) =~= before.push(f(es[i as int])));
        assert(es.take(i + 1).map_values(f) =~= es.take(i as int).map_values(f).push(f(es[i as int])));
    }
    assert(es.take(entries.len() as int) =~= es);
    let sep = chars_of(", ");
    string_of(&join_v(&parts, &sep))
}

/// The database of a mode: `/var/lib/fpm/db.sqlite` for the system, and
/// `.local/share/fpm/db.sqlite` under the home directory (`$HOME`, else `/root`) for
/// a user.
pub open spec fn default_db_path_of(user_mode: bool, home: Option<Seq<char>>) -> Seq<char> {
    if user_mode {
        join_path(home_or_root(home), ".local/share/fpm/db.sqlite"@)
    } else {
        "/var/lib/fpm/db.sqlite"@
    }
}

/// The database of a mode, given the home directory (`None` when unset).
pub fn default_db_path(user_mode: bool, home: Option<String>) -> (res: String)
    ensures
        res@ == default_db_path_of(user_mode, match home { Some(h) => Some(h@), None => None }),
{
    if user_mode {
        let base = match home {
            Some(h) => h,
            None => owned("/root"),
        };
        join_path_v(&base, ".local/share/fpm/db.sqlite")
    } else {
        owned("/var/lib/fpm/db.sqlite")
    }
}

/// The message for an update of a package that is not registered.
pub fn package_not_found(name: &str, mode: &str) -> (res: String)
    ensures
        res@ == "Package not found: "@ + name@ + " (mode="@ + mode@ + ")"@,
{
    let mut out = chars_of("Package not found: ");
    append_str(&mut out, name);
    append_str(&mut out, " (mode=");
    append_str(&mut out, mode);
    append_str(&mut out, ")");
    string_of(&out)
}

} // verus!
