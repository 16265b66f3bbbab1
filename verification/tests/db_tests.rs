use fpm::db::records::{changes_line, default_db_path, package_not_found, parse_generation_entries, parse_generation_entry};
use fpm::db::state::{flag, generations_to_prune, DbError};

#[test]
fn flag_finds_value_after_option() {
    let args: Vec<String> = vec!["fpm-db".into(), "list".into(), "--lib".into(), "/srv/fpm".into()];
    assert_eq!(flag(&args, "--lib").as_deref(), Some("/srv/fpm"));
    assert_eq!(flag(&args, "--db"), None);
    let dangling: Vec<String> = vec!["fpm-db".into(), "--lib".into()];
    assert_eq!(flag(&dangling, "--lib"), None);
}

#[test]
fn generation_entries_from_arguments() {
    let e = parse_generation_entry("curl:8.7.1:install").unwrap();
    assert_eq!((e.name.as_str(), e.version.as_str(), e.action.as_str()), ("curl", "8.7.1", "install"));
    let e = parse_generation_entry("a:1:b:c").unwrap();
    assert_eq!(e.action, "b:c");
    assert!(parse_generation_entry("a:1").is_none());
    let all = parse_generation_entries(&vec!["x:1:install".into(), "bad".into(), "y:2:remove".into()]);
    assert_eq!(all.len(), 2);
    assert_eq!(changes_line(&all), "install x (1), remove y (2)");
}

#[test]
fn database_paths_and_messages() {
    assert_eq!(default_db_path(false, Some("/home/a".into())), "/var/lib/fpm/db.sqlite");
    assert_eq!(default_db_path(true, Some("/home/a".into())), "/home/a/.local/share/fpm/db.sqlite");
    assert_eq!(default_db_path(true, None), "/root/.local/share/fpm/db.sqlite");
    assert_eq!(package_not_found("vim", "user"), "Package not found: vim (mode=user)");
    assert_eq!(DbError::PackageHeld("vim".into()).message(), "Package 'vim' is held and cannot be modified");
    assert_eq!(DbError::GenerationNotFound(4).message(), "Generation 4 not found in database");
}

#[test]
fn pruning_generations_keeps_newest() {
    assert_eq!(generations_to_prune(&vec![1, 2, 3, 4, 5], 2), vec![1, 2, 3]);
    assert_eq!(generations_to_prune(&vec![1, 2], 5), Vec::<i64>::new());
}

#[test]
fn whitespace_matches_std() {
    for u in 0u32..=0x10FFFF {
        if let Some(c) = char::from_u32(u) {
            assert_eq!(fpm::text::is_whitespace(c), c.is_whitespace(), "U+{:04X}", u);
        }
    }
}
