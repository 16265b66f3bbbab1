//! The transaction manager.
//!
//! One fpm operation runs as a transaction: `begin` allocates the next generation id
//! and a staging area `pending/`; the plan is attached and the installer unpacks into
//! `pending/root/`; `commit` writes the generation's metadata, renames `pending/` to
//! `generations/<id>/` and points `current` at it; `abort` removes `pending/`.
//! A rollback points `current` at a new generation that records the packages of an
//! older one.
//!
//! The decisions of each step are made here; the filesystem work that surrounds them
//! is done by the caller.

use vstd::prelude::*;
use crate::text::{append, append_str, append_string, chars_of, decimal, decimal_v, owned, string_of};
use crate::transaction::error::{TrxError, TrxErrorView};
use crate::transaction::generation::{
    link_target, next_id_after, packages_view, plan_packages, Generation, GenerationMeta, GenerationMetaView,
    GenerationPackage,
};
use crate::transaction::paths::{join, join_path, FpmPaths, FpmPathsView};
use crate::transaction::plan::InstallPlan;

verus! {

/// A live transaction (not yet committed).
#[derive(Debug)]
pub struct Transaction {
    pub id: u64,
    pub description: String,
    pub plan: Option<InstallPlan>,
    pub parent: Option<u64>,
    /// Path to the staging area: lib_dir/pending/
    pub pending_dir: String,
    /// The layout the transaction works in.
    pub paths: FpmPaths,
}

impl Transaction {
    /// Attaches a resolved install plan to this transaction.
    pub fn set_plan(&mut self, plan: InstallPlan)
        ensures
            final(self).plan == Some(plan),
            final(self).id == old(self).id,
            final(self).description == old(self).description,
            final(self).parent == old(self).parent,
            final(self).pending_dir == old(self).pending_dir,
            final(self).paths == old(self).paths,
    {
        self.plan = Some(plan);
    }

    /// The directory the installer unpacks files into: `pending/root`.
    pub fn root_dir(&self) -> (res: String)
        ensures
            res@ == join_path(self.pending_dir@, "root"@),
    {
        join(&self.pending_dir, "root")
    }

    /// The directory the staging area becomes on commit.
    pub fn target_dir(&self) -> (res: String)
        ensures
            res@ == self.paths@.generation_dir(self.id),
    {
        self.paths.generation_dir(self.id)
    }

    /// The metadata the commit writes, created at `created_at`: this transaction's id,
    /// description and parent, and every package of its plan (none without a plan).
    pub fn generation_meta(&self, created_at: String) -> (res: GenerationMeta)
        ensures
            res@ == (GenerationMetaView {
                id: self.id,
                created_at: created_at@,
                description: self.description@,
                packages: plan_packages(
                    match self.plan {
                        Some(p) => Some(p@.entries),
                        None => None,
                    },
                ),
                parent: self.parent,
            }),
    {
        GenerationMeta {
            id: self.id,
            created_at,
            description: self.description.clone(),
            packages: Generation::packages_of(&self.plan),
            parent: self.parent,
        }
    }

    /// The error for a staging area that could not be renamed to `target`.
    pub fn rename_failed(&self, target: &str, reason: &str) -> (res: TrxError)
        ensures
            res@ == TrxErrorView::AtomicRenameFailed(self.pending_dir@ + " -> "@ + target@ + ": "@ + reason@),
    {
        let mut out: Vec<char> = Vec::new();
        append_string(&mut out, &self.pending_dir);
        append_str(&mut out, " -> ");
        append_str(&mut out, target);
        append_str(&mut out, ": ");
        append_str(&mut out, reason);
        TrxError::AtomicRenameFailed(string_of(&out))
    }
}

/// What the `current` link points to for generation `id`: `generations/<id>`, relative
/// to the directory that holds the link, so that it resolves.
pub fn link_name(id: u64) -> (res: String)
    ensures
        res@ == link_target(id as nat),
{
    let mut out = chars_of("generations/");
    append(&mut out, &decimal_v(id));
    string_of(&out)
}

/// The temporary link written next to `current` and renamed over it.
pub fn tmp_link(paths: &FpmPaths) -> (res: String)
    ensures
        res@ == join_path(paths@.lib_dir, ".current.tmp"@),
{
    join(&paths.lib_dir, ".current.tmp")
}

/// The error for a `current` link that could not be replaced, in a commit or (when
/// `rollback`) in a rollback.
pub fn link_update_failed(rollback: bool, reason: &str) -> (res: TrxError)
    ensures
        res@ == TrxErrorView::AtomicRenameFailed(
            (if rollback { "rollback symlink failed: "@ } else { "symlink update failed: "@ }) + reason@,
        ),
{
    let mut out: Vec<char> = Vec::new();
    if rollback {
        append_str(&mut out, "rollback symlink failed: ");
    } else {
        append_str(&mut out, "symlink update failed: ");
    }
    append_str(&mut out, reason);
    TrxError::AtomicRenameFailed(string_of(&out))
}

/// Manages the generation lifecycle.
pub struct TransactionManager {
    pub paths: FpmPaths,
}

/// The description of a rollback generation.
pub open spec fn rollback_description(target: u64) -> Seq<char> {
    "rollback to generation "@ + decimal(target as nat)
}

/// A copy of recorded packages.
fn copy_packages(ps: &Vec<GenerationPackage>) -> (res: Vec<GenerationPackage>)
    ensures
        packages_view(res@) == packages_view(ps@),
{
    let mut out: Vec<GenerationPackage> = Vec::new();
    for i in 0..ps.len()
        invariant
            packages_view(out@) == packages_view(ps@.take(i as int)),
    {
        let p = &ps[i];
        let ghost before = packages_view(out@);
        out.push(GenerationPackage { name: p.name.clone(), version: p.version.clone(), blake3: p.blake3.clone() });
        assert(packages_view(out@) =~= before.push(p@));
        assert(packages_view(ps@.take(i + 1)) =~= before.push(p@));
    }
    assert(ps@.take(ps.len() as int) =~= ps@);
    out
}

impl TransactionManager {
    pub fn new(paths: FpmPaths) -> (res: TransactionManager)
        ensures
            res.paths == paths,
    {
        TransactionManager { paths }
    }

    /// The manager of the system-wide layout.
    pub fn new_system() -> (res: TransactionManager)
        ensures
            res.paths@.lib_dir == "/var/lib/fpm"@,
            res.paths@.cache_dir == "/var/cache/fpm"@,
            res.paths@.log_dir == "/var/log"@,
    {
        Self::new(FpmPaths::system())
    }

    /// The manager of the per-user layout under `home` (`$HOME`, `None` when unset).
    pub fn new_user(home: Option<String>) -> (res: TransactionManager)
        ensures
            res.paths@ == (FpmPathsView {
                lib_dir: join_path(crate::transaction::paths::home_or_root(match home { Some(h) => Some(h@), None => None }), ".local/share/fpm"@),
                cache_dir: join_path(crate::transaction::paths::home_or_root(match home { Some(h) => Some(h@), None => None }), ".cache/fpm"@),
                log_dir: join_path(crate::transaction::paths::home_or_root(match home { Some(h) => Some(h@), None => None }), ".local/share/fpm/logs"@),
            }),
    {
        Self::new(FpmPaths::user(home))
    }

    /// Why a transaction cannot begin while `pending/` exists: another transaction is
    /// active when its metadata names its generation (`pending_id`); without readable
    /// metadata the staging area has to be removed by hand.
    pub fn pending_conflict(pending_id: Option<u64>) -> (res: TrxError)
        ensures
            res@ == (match pending_id {
                Some(id) => TrxErrorView::AlreadyActive(id),
                None => TrxErrorView::AtomicRenameFailed(
                    "pending/ exists but has no meta.json — remove manually"@,
                ),
            }),
    {
        match pending_id {
            Some(id) => TrxError::AlreadyActive(id),
            None => TrxError::AtomicRenameFailed(owned("pending/ exists but has no meta.json — remove manually")),
        }
    }

    /// Begins a transaction once no `pending/` exists, given the ascending ids of the
    /// existing generations and the current one: the id after the last existing one,
    /// with the current generation as parent, staged in `pending/`, with no plan yet.
    pub fn begin(&self, description: String, ids: &Vec<u64>, current: Option<u64>) -> (res: Transaction)
        requires
            ids.len() == 0 || ids@.last() < u64::MAX,
        ensures
            res.id == next_id_after(ids@),
            res.description@ == description@,
            res.plan is None,
            res.parent == current,
            res.pending_dir@ == self.paths@.pending_dir(),
            res.paths@ == self.paths@,
    {
        Transaction {
            id: Generation::next_id(ids),
            description,
            plan: None,
            parent: current,
            pending_dir: self.paths.pending_dir(),
            paths: FpmPaths {
                lib_dir: self.paths.lib_dir.clone(),
                cache_dir: self.paths.cache_dir.clone(),
                log_dir: self.paths.log_dir.clone(),
            },
        }
    }

    /// Refuses a rollback to the generation that is already current.
    pub fn rollback_check(current: u64, target_id: u64) -> (res: Result<(), TrxError>)
        ensures
            current == target_id <==> res is Err,
            res matches Err(e) ==> e@ == (TrxErrorView::AlreadyCurrent { target: target_id, current }),
    {
        if current == target_id {
            Err(TrxError::AlreadyCurrent { target: target_id, current })
        } else {
            Ok(())
        }
    }

    /// The generation a rollback from `current` to `target` writes, created at
    /// `created_at`: the next id after the ascending `ids`, the target's packages, and
    /// the current generation as its parent.
    pub fn rollback_record(
        current: u64,
        target_id: u64,
        target: &GenerationMeta,
        ids: &Vec<u64>,
        created_at: String,
    ) -> (res: GenerationMeta)
        requires
            current != target_id,
            ids.len() == 0 || ids@.last() < u64::MAX,
        ensures
            res@ == (GenerationMetaView {
                id: next_id_after(ids@) as u64,
                created_at: created_at@,
                description: rollback_description(target_id),
                packages: target@.packages,
                parent: Some(current),
            }),
    {
        let mut d: Vec<char> = Vec::new();
        append_str(&mut d, "rollback to generation ");
        append(&mut d, &decimal_v(target_id));
        GenerationMeta {
            id: Generation::next_id(ids),
            created_at,
            description: string_of(&d),
            packages: copy_packages(&target.packages),
            parent: Some(current),
        }
    }
}

} // verus!
