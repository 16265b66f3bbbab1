//! The rows of the `fpm-db` state database (packages by generation, their files,
//! generations, holds), its errors, and the decisions of its command line.

use vstd::prelude::*;
use crate::text::{append, append_str, append_string, decimal, decimal_v, string_of};

verus! {

/// A package row: which generation installed it, and whether it was asked for.
#[derive(Debug, Clone)]
pub struct DbPackage {
    pub id: i64,
    pub name: String,
    pub version: String,
    /// Generation in which this package was installed
    pub generation_id: i64,
    /// BLAKE3 of the .fpkg archive
    pub blake3: Option<String>,
    /// Total installed size in bytes (sum of all files)
    pub installed_size: i64,
    /// When it was installed, as RFC 3339 text.
    pub installed_at: String,
    /// Manually installed (true) vs pulled in as dependency (false)
    pub explicit: bool,
}

/// A file row.
#[derive(Debug, Clone)]
pub struct DbFile {
    pub id: i64,
    pub package_id: i64,
    pub package_name: String,
    /// Relative to filesystem root (no leading /)
    pub path: String,
    pub blake3: String,
    pub size: i64,
    /// "file" | "symlink" | "directory"
    pub file_type: String,
}

/// A generation row.
#[derive(Debug, Clone)]
pub struct DbGeneration {
    pub id: i64,
    pub gen_id: i64,
    pub description: String,
    /// When it was created, as RFC 3339 text.
    pub created_at: String,
    pub parent_gen_id: Option<i64>,
    /// JSON snapshot of package list at this generation
    pub packages_json: String,
}

/// A hold row — a package locked against upgrade and removal.
#[derive(Debug, Clone)]
pub struct DbHold {
    pub id: i64,
    pub package_name: String,
    pub reason: Option<String>,
    /// When the hold was placed, as RFC 3339 text.
    pub held_at: String,
}

/// Why a database operation failed.
#[derive(Debug, Clone)]
pub enum DbError {
    Sqlite(String),
    PackageNotFound(String),
    GenerationNotFound(u64),
    PackageHeld(String),
    Json(String),
    Io(String),
    Pool(String),
}

/// The text shown for an error.
pub open spec fn db_error_message(e: DbError) -> Seq<char> {
    match e {
        DbError::Sqlite(s) => "SQLite error: "@ + s@,
        DbError::PackageNotFound(s) => "Package '"@ + s@ + "' not found in database"@,
        DbError::GenerationNotFound(id) => "Generation "@ + decimal(id as nat) + " not found in database"@,
        DbError::PackageHeld(s) => "Package '"@ + s@ + "' is held and cannot be modified"@,
        DbError::Json(s) => "JSON serialisation error: "@ + s@,
        DbError::Io(s) => "I/O error: "@ + s@,
        DbError::Pool(s) => "connection pool error: "@ + s@,
    }
}

impl DbError {
    /// The text shown for this error.
    pub fn message(&self) -> (res: String)
        ensures
            res@ == db_error_message(*self),
    {
        let mut out: Vec<char> = Vec::new();
        match self {
            DbError::Sqlite(s) => {
                append_str(&mut out, "SQLite error: ");
                append_string(&mut out, s);
            },
            DbError::PackageNotFound(s) => {
                append_str(&mut out, "Package '");
                append_string(&mut out, s);
                append_str(&mut out, "' not found in database");
            },
            DbError::GenerationNotFound(id) => {
                append_str(&mut out, "Generation ");
                append(&mut out, &decimal_v(*id));
                append_str(&mut out, " not found in database");
            },
            DbError::PackageHeld(s) => {
                append_str(&mut out, "Package '");
                append_string(&mut out, s);
                append_str(&mut out, "' is held and cannot be modified");
            },
            DbError::Json(s) => {
                append_str(&mut out, "JSON serialisation error: ");
                append_string(&mut out, s);
            },
            DbError::Io(s) => {
                append_str(&mut out, "I/O error: ");
                append_string(&mut out, s);
            },
            DbError::Pool(s) => {
                append_str(&mut out, "connection pool error: ");
                append_string(&mut out, s);
            },
        }
        string_of(&out)
    }
}

// ------------------------------------------------------------------ command line

/// The value that follows the first occurrence of the option `name` in `args`.
pub open spec fn flag_value(args: Seq<String>, name: Seq<char>) -> Option<Seq<char>>
    decreases args.len(),
{
    if args.len() < 2 {
        None
    } else if args[0]@ == name {
        Some(args[1]@)
    } else {
        flag_value(args.drop_first(), name)
    }
}

/// The value that follows the option `name` in the command line `args`.
pub fn flag(args: &Vec<String>, name: &str) -> (res: Option<String>)
    ensures
        match res {
            Some(v) => flag_value(args@, name@) == Some(v@),
            None => flag_value(args@, name@) is None,
        },
{
    let n = owned_str(name);
    let mut i: usize = 0;
    assert(args@.skip(0) =~= args@);
    while args.len() >= 2 && i < args.len() - 1
        invariant
            i <= args.len(),
            n@ == name@,
            flag_value(args@, name@) == flag_value(args@.skip(i as int), name@),
        decreases args.len() - i,
    {
        assert(args@.skip(i as int).drop_first() =~= args@.skip(i + 1));
        if args[i] == n {
            return Some(args[i + 1].clone());
        }
        i = i + 1;
    }
    None
}

fn owned_str(s: &str) -> (res: String)
    ensures
        res@ == s@,
{
    crate::text::owned(s)
}

/// The generations that pruning removes from the ascending `gen_ids` so that `keep`
/// stay: the oldest ones, none when there are no more than `keep`.
pub open spec fn generations_pruned(gen_ids: Seq<i64>, keep: nat) -> Seq<i64> {
    if gen_ids.len() <= keep {
        Seq::empty()
    } else {
        gen_ids.take(gen_ids.len() - keep)
    }
}

/// The generations to remove so that the newest `keep` of `gen_ids` (ascending) stay.
pub fn generations_to_prune(gen_ids: &Vec<i64>, keep: usize) -> (res: Vec<i64>)
    ensures
        res@ == generations_pruned(gen_ids@, keep as nat),
{
    let mut out: Vec<i64> = Vec::new();
    if gen_ids.len() <= keep {
        return out;
    }
    let n = gen_ids.len() - keep;
    for i in 0..n
        invariant
            n <= gen_ids.len(),
            out@ == gen_ids@.take(i as int),
    {
        out.push(gen_ids[i]);
        assert(gen_ids@.take(i + 1) =~= gen_ids@.take(i as int).push(gen_ids@[i as int]));
    }
    out
}

/// Pruning keeps exactly the newest `keep` generations (all, when there are fewer),
/// and what it removes and what it keeps make up the whole history.
pub proof fn lemma_generations_pruned(gen_ids: Seq<i64>, keep: nat)
    ensures
        generations_pruned(gen_ids, keep) + gen_ids.skip(generations_pruned(gen_ids, keep).len() as int) == gen_ids,
        gen_ids.len() - generations_pruned(gen_ids, keep).len() == if gen_ids.len() <= keep {
            gen_ids.len() as int
        } else {
            keep as int
        },
{
    let p = generations_pruned(gen_ids, keep);
    assert(p + gen_ids.skip(p.len() as int) =~= gen_ids);
}

// ------------------------------------------------------------------ syncing a generation

/// What an installed file is.
#[derive(Debug, Clone, Copy)]
pub enum FileKind {
    File,
    Symlink,
    Directory,
}

/// A file that a package's install manifest lists.
#[derive(Debug, Clone)]
pub struct InstalledFile {
    pub path: String,
    pub blake3: String,
    pub size: u64,
    pub kind: FileKind,
}

/// The rows that syncing writes for one package of a generation.
#[derive(Debug, Clone)]
pub struct SyncedPackage {
    pub name: String,
    pub version: String,
    pub blake3: Option<String>,
    pub installed_size: i64,
    pub explicit: bool,
    pub files: Vec<DbFile>,
}

/// The name a file kind has in the `files` table.
pub open spec fn kind_name(k: FileKind) -> Seq<char> {
    match k {
        FileKind::File => "file"@,
        FileKind::Symlink => "symlink"@,
        FileKind::Directory => "directory"@,
    }
}

/// The total size of the files.
pub open spec fn total_size(files: Seq<InstalledFile>) -> int
    decreases files.len(),
{
    if files.len() == 0 {
        0
    } else {
        total_size(files.drop_last()) + files.last().size
    }
}

/// The row of a file of package `name`: not yet numbered, nor tied to a package row.
pub open spec fn file_row(name: Seq<char>, f: InstalledFile, row: DbFile) -> bool {
    &&& row.id == 0 && row.package_id == 0
    &&& row.package_name@ == name
    &&& row.path == f.path
    &&& row.blake3 == f.blake3
    &&& row.size == f.size
    &&& row.file_type@ == kind_name(f.kind)
}

/// A partial sum of sizes stays within the total.
proof fn lemma_total_size_prefix(files: Seq<InstalledFile>, i: int)
    requires
        0 <= i <= files.len(),
    ensures
        0 <= total_size(files.take(i)) <= total_size(files),
    decreases files.len() - i,
{
    if i < files.len() {
        lemma_total_size_prefix(files, i + 1);
        assert(files.take(i + 1).drop_last() =~= files.take(i));
    } else {
        assert(files.take(i) =~= files);
    }
    lemma_total_size_nonneg(files.take(i));
}

proof fn lemma_total_size_nonneg(files: Seq<InstalledFile>)
    ensures
        total_size(files) >= 0,
    decreases files.len(),
{
    if files.len() > 0 {
        lemma_total_size_nonneg(files.drop_last());
    }
}

/// Whether the user asked for the package `name` (it is among `explicit_names`).
pub fn is_explicit(explicit_names: &Vec<String>, name: &String) -> (res: bool)
    ensures
        res == names_of(explicit_names@).contains(name@),
{
    for i in 0..explicit_names.len()
        invariant
            forall|k: int| 0 <= k < i ==> explicit_names@[k]@ != name@,
    {
        if explicit_names[i] == *name {
            assert(names_of(explicit_names@)[i as int] == name@);
            return true;
        }
    }
    assert forall|k: int| 0 <= k < names_of(explicit_names@).len() implies names_of(explicit_names@)[k] != name@ by {
        assert(names_of(explicit_names@)[k] == explicit_names@[k]@);
    }
    false
}

/// The characters of each name.
pub open spec fn names_of(v: Seq<String>) -> Seq<Seq<char>> {
    v.map_values(|s: String| s@)
}

/// The rows that syncing writes for the package `name` at `version` with hash
/// `blake3`: whether it was asked for, and, when its install manifest could be read
/// (`files`), its total size and one row per file; else size 0 and no file rows.
pub fn package_record(
    name: &String,
    version: &String,
    blake3: &Option<String>,
    files: Option<&Vec<InstalledFile>>,
    explicit_names: &Vec<String>,
) -> (res: SyncedPackage)
    requires
        files matches Some(fs) ==> total_size(fs@) <= i64::MAX,
    ensures
        res.name == *name,
        res.version == *version,
        res.blake3 == *blake3,
        res.explicit == names_of(explicit_names@).contains(name@),
        res.installed_size == (match files {
            Some(fs) => total_size(fs@),
            None => 0,
        }),
        res.files@.len() == (match files {
            Some(fs) => fs@.len(),
            None => 0,
        }),
        files matches Some(fs) ==> forall|i: int| 0 <= i < fs@.len() ==> file_row(name@, fs@[i], #[trigger] res.files@[i]),
{
    let explicit = is_explicit(explicit_names, name);
    let mut size: i64 = 0;
    let mut rows: Vec<DbFile> = Vec::new();
    match files {
        Some(fs) => {
            for i in 0..fs.len()
                invariant
                    total_size(fs@) <= i64::MAX,
                    size == total_size(fs@.take(i as int)),
                    rows@.len() == i,
                    forall|k: int| 0 <= k < i ==> file_row(name@, fs@[k], #[trigger] rows@[k]),
            {
                let f = &fs[i];
                proof {
                    assert(fs@.take(i + 1).drop_last() =~= fs@.take(i as int));
                    assert(fs@.take(i + 1).last() == fs@[i as int]);
                    lemma_total_size_prefix(fs@, i + 1);
                    lemma_total_size_prefix(fs@, i as int);
                }
                size = size + f.size as i64;
                let kind = match f.kind {
                    FileKind::File => crate::text::owned("file"),
                    FileKind::Symlink => crate::text::owned("symlink"),
                    FileKind::Directory => crate::text::owned("directory"),
                };
                rows.push(DbFile {
                    id: 0,
                    package_id: 0,
                    package_name: name.clone(),
                    path: f.path.clone(),
                    blake3: f.blake3.clone(),
                    size: f.size as i64,
                    file_type: kind,
                });
            }
            assert(fs@.take(fs.len() as int) =~= fs@);
        },
        None => {},
    }
    SyncedPackage {
        name: name.clone(),
        version: version.clone(),
        blake3: blake3.clone(),
        installed_size: size,
        explicit,
        files: rows,
    }
}

} // verus!
