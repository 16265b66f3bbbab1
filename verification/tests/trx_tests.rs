use fpm::transaction::error::TrxError;
use fpm::transaction::generation::{Generation, GenerationMeta, GenerationPackage};
use fpm::transaction::paths::FpmPaths;
use fpm::transaction::plan::{FetchResult, InstallPlan, PlanOp, ResolvedPackage};
use fpm::transaction::trx::{link_name, TransactionManager};

/// A layout rooted in a scratch directory.
fn tmp_paths() -> FpmPaths {
    FpmPaths {
        lib_dir: "/tmp/fpm-test/lib".into(),
        cache_dir: "/tmp/fpm-test/cache".into(),
        log_dir: "/tmp/fpm-test/log".into(),
    }
}

const NOW: &str = "2026-01-01T00:00:00+00:00";

#[test]
fn test_begin_commit_creates_generation() {
    let mgr = TransactionManager::new(tmp_paths());

    let trx = mgr.begin("install hello 1.0.0".into(), &vec![], None);
    let id = trx.id;
    assert_eq!(id, 1);

    let meta = trx.generation_meta(NOW.into());
    assert_eq!(meta.id, 1);
    assert_eq!(meta.description, "install hello 1.0.0");
    assert_eq!(trx.target_dir(), "/tmp/fpm-test/lib/generations/1");
}

#[test]
fn test_current_symlink_updated_after_commit() {
    let mgr = TransactionManager::new(tmp_paths());
    let mut ids: Vec<u64> = vec![];
    let mut current: Option<u64> = None;
    for d in ["install a", "install b"] {
        let trx = mgr.begin(d.into(), &ids, current);
        ids.push(trx.id);
        let link = link_name(trx.id);
        current = Some(Generation::current_id(Some(&link)).unwrap());
    }
    assert_eq!(current, Some(2));
}

#[test]
fn test_double_begin_fails() {
    let mgr = TransactionManager::new(tmp_paths());
    let trx = mgr.begin("first".into(), &vec![], None);
    assert_eq!(trx.pending_dir, "/tmp/fpm-test/lib/pending");
    // The staging area of the first transaction exists and has no metadata yet.
    let result = TransactionManager::pending_conflict(None);
    assert!(matches!(result, TrxError::AtomicRenameFailed(_)), "second begin should fail while pending exists");
    assert_eq!(TransactionManager::pending_conflict(Some(1)).message(), "Transaction already active (generation 1 pending)");
}

#[test]
fn test_rollback_creates_new_generation() {
    let mgr = TransactionManager::new(tmp_paths());
    let first = mgr.begin("install firefox".into(), &vec![], None).generation_meta(NOW.into());
    let second = mgr.begin("install vim".into(), &vec![1], Some(1)).generation_meta(NOW.into());
    assert_eq!(second.id, 2);
    let current = Generation::current_id(Some(&link_name(second.id))).unwrap();
    assert_eq!(current, 2);

    assert!(TransactionManager::rollback_check(current, 1).is_ok());
    let gen3 = TransactionManager::rollback_record(current, 1, &first, &vec![1, 2], NOW.into());
    assert_eq!(gen3.id, 3);
    let current = Generation::current_id(Some(&link_name(gen3.id))).unwrap();
    assert_eq!(current, 3);
    assert!(gen3.description.contains("rollback to generation 1"));
    assert_eq!(gen3.parent, Some(2));
}

#[test]
fn test_rollback_to_current_fails() {
    let r = TransactionManager::rollback_check(1, 1);
    assert!(r.is_err());
    assert_eq!(r.unwrap_err().message(), "Rollback target 1 is already current (1)");
}

#[test]
fn test_prune_keeps_n_generations() {
    let ids = Generation::list_ids(&vec!["1".into(), "2".into(), "3".into(), "4".into(), "5".into(), "6".into()]);
    assert_eq!(ids.len(), 6);

    let pruned = Generation::prune(&ids, Some(6), 3);
    assert_eq!(pruned.len(), 3);
    assert!(pruned.contains(&1));
    assert!(pruned.contains(&2));
    assert!(pruned.contains(&3));
    assert!(!pruned.contains(&6));
}

#[test]
fn test_install_plan_from_resolved() {
    let resolved = vec![
        ResolvedPackage { name: "hello".into(), version: "1.0.0".into(), blake3: None, deps: vec![] },
        ResolvedPackage { name: "glibc".into(), version: "2.35.0".into(), blake3: None, deps: vec![] },
    ];
    let fetch_results = vec![
        FetchResult { package: "hello".into(), version: "1.0.0".into(), path: "/cache/hello-1.0.0.fpkg".into(), was_cached: false },
    ];
    let installed = vec![("glibc".to_string(), "2.35.0".to_string())];

    let plan = InstallPlan::from_resolved(&resolved, &fetch_results, &installed, "install hello".into());

    let hello = plan.entries.iter().find(|e| e.name == "hello").unwrap();
    assert_eq!(hello.op, PlanOp::Install);
    assert!(hello.fpkg_path.is_some());

    let glibc = plan.entries.iter().find(|e| e.name == "glibc").unwrap();
    assert_eq!(glibc.op, PlanOp::AlreadyInstalled);

    assert_eq!(plan.actionable().len(), 1);
}

#[test]
fn test_generation_packages_saved_in_commit() {
    let mgr = TransactionManager::new(tmp_paths());

    let resolved = vec![
        ResolvedPackage { name: "firefox".into(), version: "125.0.3".into(), blake3: Some("abc123".into()), deps: vec![] },
    ];
    let fetch_results = vec![
        FetchResult { package: "firefox".into(), version: "125.0.3".into(), path: "/cache/firefox.fpkg".into(), was_cached: false },
    ];

    let plan = InstallPlan::from_resolved(&resolved, &fetch_results, &vec![], "install firefox".into());

    let mut trx = mgr.begin("install firefox".into(), &vec![], None);
    trx.set_plan(plan);
    let gen = trx.generation_meta(NOW.into());
    assert_eq!(gen.packages.len(), 1);
    assert_eq!(gen.packages[0].name, "firefox");
    assert_eq!(gen.packages[0].blake3.as_deref(), Some("abc123"));
}

// ---------------------------------------------------------------- further cases

#[test]
fn paths_layout() {
    let p = FpmPaths::system();
    assert_eq!(p.generations_dir(), "/var/lib/fpm/generations");
    assert_eq!(p.generation_dir(42), "/var/lib/fpm/generations/42");
    assert_eq!(p.pending_dir(), "/var/lib/fpm/pending");
    assert_eq!(p.current_link(), "/var/lib/fpm/current");
    assert_eq!(p.db_path(), "/var/lib/fpm/db.sqlite");
    assert_eq!(p.trx_log(), "/var/log/fpm-trx.log");
    let u = FpmPaths::user(Some("/home/eve/".into()));
    assert_eq!(u.lib_dir, "/home/eve/.local/share/fpm");
    assert_eq!(u.cache_dir, "/home/eve/.cache/fpm");
    let r = FpmPaths::user(None);
    assert_eq!(r.log_dir, "/root/.local/share/fpm/logs");
    let m = TransactionManager::new_user(Some("/home/x".into()));
    assert_eq!(m.paths.lib_dir, "/home/x/.local/share/fpm");
    assert_eq!(TransactionManager::new_system().paths.lib_dir, "/var/lib/fpm");
}

#[test]
fn list_ids_sorts_and_skips_other_names() {
    let names: Vec<String> = vec!["10".into(), "tmp".into(), "2".into(), "+7".into(), "2".into(), "99999999999999999999".into()];
    assert_eq!(Generation::list_ids(&names), vec![2, 2, 7, 10]);
    assert_eq!(Generation::next_id(&vec![2, 7, 10]), 11);
    assert_eq!(Generation::next_id(&vec![]), 1);
}

#[test]
fn current_id_from_link() {
    assert_eq!(Generation::current_id(Some("/var/lib/fpm/generations/12")).unwrap(), 12);
    assert_eq!(Generation::current_id(Some("7/")).unwrap(), 7);
    assert!(matches!(Generation::current_id(Some("latest")), Err(TrxError::NoCurrentGeneration)));
    assert!(matches!(Generation::current_id(None), Err(TrxError::NoCurrentGeneration)));
}

#[test]
fn prune_without_current_and_small_histories() {
    assert_eq!(Generation::prune(&vec![1, 2], None, 3), Vec::<u64>::new());
    assert_eq!(Generation::prune(&vec![1, 2, 3, 4], Some(2), 1), vec![1, 3]);
    assert_eq!(Generation::prune(&vec![1, 2, 3], None, 0), vec![1, 2, 3]);
}

#[test]
fn plan_upgrade_and_summary() {
    let resolved = vec![
        ResolvedPackage { name: "vim".into(), version: "9.1".into(), blake3: None, deps: vec![] },
        ResolvedPackage { name: "curl".into(), version: "8.7".into(), blake3: None, deps: vec![] },
        ResolvedPackage { name: "git".into(), version: "2.44".into(), blake3: None, deps: vec![] },
    ];
    let fetched = vec![
        FetchResult { package: "vim".into(), version: "9.0".into(), path: "/a".into(), was_cached: true },
        FetchResult { package: "vim".into(), version: "9.1".into(), path: "/b".into(), was_cached: false },
    ];
    let installed = vec![("vim".to_string(), "9.0".to_string()), ("git".to_string(), "2.44".to_string())];
    let plan = InstallPlan::from_resolved(&resolved, &fetched, &installed, "upgrade".into());
    assert_eq!(plan.entries[0].op, PlanOp::Upgrade { from_version: "9.0".into() });
    assert_eq!(plan.entries[0].fpkg_path.as_deref(), Some("/b"));
    assert_eq!(plan.entries[1].fpkg_path, None);
    assert_eq!(plan.summary(), "  curl 8.7  [new]\n  vim 9.0 -> 9.1  [upgrade]\n  git 2.44  [already installed]");
    let act = plan.actionable();
    assert_eq!(act.len(), 2);
    assert_eq!(act[0].name, "vim");
    assert_eq!(act[1].name, "curl");
}

#[test]
fn rollback_keeps_target_packages() {
    let target = GenerationMeta {
        id: 4,
        created_at: NOW.into(),
        description: "install a".into(),
        packages: vec![GenerationPackage { name: "a".into(), version: "1".into(), blake3: None }],
        parent: Some(3),
    };
    let r = TransactionManager::rollback_record(9, 4, &target, &vec![3, 4, 9], "later".into());
    assert_eq!(r.id, 10);
    assert_eq!(r.description, "rollback to generation 4");
    assert_eq!(r.packages.len(), 1);
    assert_eq!(r.packages[0].name, "a");
    assert_eq!(r.created_at, "later");
}

#[test]
fn trx_messages_and_root_dir() {
    let mgr = TransactionManager::new(tmp_paths());
    let trx = mgr.begin("x".into(), &vec![5], Some(5));
    assert_eq!(trx.id, 6);
    assert_eq!(trx.parent, Some(5));
    assert_eq!(trx.root_dir(), "/tmp/fpm-test/lib/pending/root");
    assert_eq!(
        trx.rename_failed("/t", "busy").message(),
        "Atomic rename failed: /tmp/fpm-test/lib/pending -> /t: busy"
    );
    assert_eq!(TrxError::GenerationNotFound(3).message(), "Generation 3 not found");
    assert_eq!(fpm::transaction::trx::link_update_failed(true, "x").message(), "Atomic rename failed: rollback symlink failed: x");
    assert_eq!(fpm::transaction::trx::tmp_link(&tmp_paths()), "/tmp/fpm-test/lib/.current.tmp");
}

#[test]
fn plan_nothing_to_do_when_all_current() {
    let resolved = vec![
        ResolvedPackage { name: "a".into(), version: "1".into(), blake3: Some("ff".into()), deps: vec![] },
        ResolvedPackage { name: "b".into(), version: "2".into(), blake3: None, deps: vec!["a".into()] },
    ];
    let installed = vec![("b".to_string(), "2".to_string()), ("a".to_string(), "1".to_string())];
    let plan = InstallPlan::from_resolved(&resolved, &vec![], &installed, "noop".into());
    assert!(plan.actionable().is_empty());
    assert_eq!(plan.entries[0].op, PlanOp::AlreadyInstalled);
    assert_eq!(plan.entries[0].blake3.as_deref(), Some("ff"));
    assert_eq!(plan.summary(), "  a 1  [already installed]\n  b 2  [already installed]");
}

#[test]
fn current_link_resolves_to_generation_dir() {
    assert_eq!(link_name(12), "generations/12");
    assert_eq!(Generation::current_id(Some(&link_name(12))).unwrap(), 12);
    let p = tmp_paths();
    assert_eq!(format!("{}/{}", p.lib_dir, link_name(3)), p.generation_dir(3));
}
