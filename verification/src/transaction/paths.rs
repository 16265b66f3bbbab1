//! The filesystem layout of fpm: where generations, the staging area, the
//! `current` pointer, the database and the logs live, in system or user mode.

use vstd::prelude::*;
use crate::text::{append_str, chars_of, decimal, decimal_string, digit_char, owned, string_of};

verus! {

/// `seg` appended to the path `base` as a further component (`Path::join` with a
/// relative segment): directly after an empty base or a trailing `/`, else after a `/`.
pub open spec fn join_path(base: Seq<char>, seg: Seq<char>) -> Seq<char> {
    if base.len() == 0 {
        seg
    } else if base.last() == '/' {
        base + seg
    } else {
        base + "/"@ + seg
    }
}

/// Appends the relative segment `seg` to the path `base`.
pub fn join(base: &String, seg: &str) -> (res: String)
    ensures
        res@ == join_path(base@, seg@),
{
    let b = chars_of(base.as_str());
    let mut out = b.clone();
    assert(out@ == b@);
    if b.len() == 0 {
        append_str(&mut out, seg);
    } else if b[b.len() - 1] == '/' {
        append_str(&mut out, seg);
    } else {
        append_str(&mut out, "/");
        append_str(&mut out, seg);
    }
    string_of(&out)
}

/// Filesystem layout for fpm.
///
/// System mode keeps its state under `/var/lib/fpm`, its cache under `/var/cache/fpm`
/// and its log under `/var/log`; user mode under `~/.local/share/fpm`, `~/.cache/fpm`
/// and `~/.local/share/fpm/logs`.
#[derive(Debug, Clone)]
pub struct FpmPaths {
    pub lib_dir: String,
    pub cache_dir: String,
    pub log_dir: String,
}

/// The plain value of `FpmPaths`.
pub struct FpmPathsView {
    pub lib_dir: Seq<char>,
    pub cache_dir: Seq<char>,
    pub log_dir: Seq<char>,
}

impl View for FpmPaths {
    type V = FpmPathsView;

    open spec fn view(&self) -> FpmPathsView {
        FpmPathsView { lib_dir: self.lib_dir@, cache_dir: self.cache_dir@, log_dir: self.log_dir@ }
    }
}

/// The home directory used in user mode: `$HOME`, or `/root` when it is not set.
pub open spec fn home_or_root(home: Option<Seq<char>>) -> Seq<char> {
    match home {
        Some(h) => h,
        None => "/root"@,
    }
}

impl FpmPathsView {
    pub open spec fn generations_dir(self) -> Seq<char> {
        join_path(self.lib_dir, "generations"@)
    }

    pub open spec fn generation_dir(self, id: u64) -> Seq<char> {
        join_path(self.generations_dir(), decimal(id as nat))
    }

    pub open spec fn pending_dir(self) -> Seq<char> {
        join_path(self.lib_dir, "pending"@)
    }

    pub open spec fn current_link(self) -> Seq<char> {
        join_path(self.lib_dir, "current"@)
    }

    pub open spec fn db_path(self) -> Seq<char> {
        join_path(self.lib_dir, "db.sqlite"@)
    }

    pub open spec fn trx_log(self) -> Seq<char> {
        join_path(self.log_dir, "fpm-trx.log"@)
    }
}

impl FpmPaths {
    /// The system-wide layout.
    pub fn system() -> (res: FpmPaths)
        ensures
            res@.lib_dir == "/var/lib/fpm"@,
            res@.cache_dir == "/var/cache/fpm"@,
            res@.log_dir == "/var/log"@,
    {
        FpmPaths {
            lib_dir: owned("/var/lib/fpm"),
            cache_dir: owned("/var/cache/fpm"),
            log_dir: owned("/var/log"),
        }
    }

    /// The per-user layout under the home directory `home` (`$HOME`; `None` when it is
    /// not set, and then `/root` is used).
    pub fn user(home: Option<String>) -> (res: FpmPaths)
        ensures
            res@.lib_dir == join_path(home_or_root(match home { Some(h) => Some(h@), None => None }), ".local/share/fpm"@),
            res@.cache_dir == join_path(home_or_root(match home { Some(h) => Some(h@), None => None }), ".cache/fpm"@),
            res@.log_dir == join_path(home_or_root(match home { Some(h) => Some(h@), None => None }), ".local/share/fpm/logs"@),
    {
        let base = match home {
            Some(h) => h,
            None => owned("/root"),
        };
        FpmPaths {
            lib_dir: join(&base, ".local/share/fpm"),
            cache_dir: join(&base, ".cache/fpm"),
            log_dir: join(&base, ".local/share/fpm/logs"),
        }
    }

    /// Root directory for all generations.
    pub fn generations_dir(&self) -> (res: String)
        ensures
            res@ == self@.generations_dir(),
    {
        join(&self.lib_dir, "generations")
    }

    /// Directory of the generation `id`.
    pub fn generation_dir(&self, id: u64) -> (res: String)
        ensures
            res@ == self@.generation_dir(id),
    {
        let g = self.generations_dir();
        let d = decimal_string(id);
        join(&g, d.as_str())
    }

    /// The staging directory of the generation being built.
    pub fn pending_dir(&self) -> (res: String)
        ensures
            res@ == self@.pending_dir(),
    {
        join(&self.lib_dir, "pending")
    }

    /// The symbolic link that names the current generation.
    pub fn current_link(&self) -> (res: String)
        ensures
            res@ == self@.current_link(),
    {
        join(&self.lib_dir, "current")
    }

    /// The SQLite database.
    pub fn db_path(&self) -> (res: String)
        ensures
            res@ == self@.db_path(),
    {
        join(&self.lib_dir, "db.sqlite")
    }

    /// The transaction log.
    pub fn trx_log(&self) -> (res: String)
        ensures
            res@ == self@.trx_log(),
    {
        join(&self.log_dir, "fpm-trx.log")
    }
}


// ------------------------------------------------------------------ laws

/// A decimal rendering has at least one digit.
pub proof fn lemma_decimal_nonempty(n: nat)
    ensures
        decimal(n).len() >= 1,
    decreases n,
{
    if n >= 10 {
        lemma_decimal_nonempty(n / 10);
    }
}

/// Distinct numbers have distinct decimal renderings.
pub proof fn lemma_decimal_injective(a: nat, b: nat)
    requires
        decimal(a) == decimal(b),
    ensures
        a == b,
    decreases a,
{
    if a < 10 && b < 10 {
        assert(decimal(a) == seq![digit_char(a)]);
        assert(decimal(b) == seq![digit_char(b)]);
        assert(decimal(a)[0] == digit_char(a));
        assert(decimal(b)[0] == digit_char(b));
        assert(digit_char(a) as int == 48 + a);
        assert(digit_char(b) as int == 48 + b);
        assert(digit_char(a) == digit_char(b));
    } else if a < 10 {
        lemma_decimal_nonempty(b / 10);
        assert(decimal(b).len() >= 2);
    } else if b < 10 {
        lemma_decimal_nonempty(a / 10);
        assert(decimal(a).len() >= 2);
    } else {
        assert(decimal(a).drop_last() =~= decimal(a / 10));
        assert(decimal(b).drop_last() =~= decimal(b / 10));
        lemma_decimal_injective(a / 10, b / 10);
        assert(decimal(a).last() == digit_char(a % 10));
        assert(decimal(b).last() == digit_char(b % 10));
        assert(digit_char(a % 10) as int == 48 + a % 10);
        assert(digit_char(b % 10) as int == 48 + b % 10);
        assert(a == 10 * (a / 10) + a % 10);
        assert(b == 10 * (b / 10) + b % 10);
    }
}

/// Two generations with different ids never share a directory.
pub proof fn lemma_generation_dirs_distinct(p: FpmPathsView, a: u64, b: u64)
    requires
        a != b,
    ensures
        p.generation_dir(a) != p.generation_dir(b),
{
    let g = p.generations_dir();
    reveal_strlit("generations");
    reveal_strlit("/");
    assert(g.len() > 0 && g.last() == 's');
    let da = decimal(a as nat);
    let db = decimal(b as nat);
    if p.generation_dir(a) == p.generation_dir(b) {
        assert((g + "/"@ + da).skip(g.len() as int + 1) =~= da);
        assert((g + "/"@ + db).skip(g.len() as int + 1) =~= db);
        lemma_decimal_injective(a as nat, b as nat);
    }
}

/// The staging directory is never the directory of a generation.
pub proof fn lemma_pending_not_generation(p: FpmPathsView, id: u64)
    ensures
        p.pending_dir() != p.generation_dir(id),
{
    let l = p.lib_dir;
    reveal_strlit("generations");
    reveal_strlit("pending");
    reveal_strlit("/");
    let k: int = if l.len() == 0 {
        0
    } else if l.last() == '/' {
        l.len() as int
    } else {
        l.len() as int + 1
    };
    assert(p.pending_dir()[k] == 'p');
    assert(p.generations_dir()[k] == 'g');
    assert(p.generations_dir().len() > k);
    let g = p.generations_dir();
    assert(g.last() == 's');
    assert(p.generation_dir(id) == g + "/"@ + decimal(id as nat));
    assert(p.generation_dir(id)[k] == 'g');
}

} // verus!
