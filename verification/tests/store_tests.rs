use hatoba::config::Directory;
use hatoba::error::CommandError;
use hatoba::store::DirStore;

fn store_with(entries: &[(&str, bool)]) -> DirStore {
    let mut db = DirStore::new();
    for (path, default) in entries {
        db.insert_dir(path, None, *default).unwrap();
    }
    db
}

fn paths(db: &DirStore) -> Vec<String> {
    db.list_dirs().iter().map(|d| d.path.clone()).collect()
}

#[test]
fn list_dirs_empty_when_new() {
    let db = DirStore::new();
    assert!(db.list_dirs().is_empty());
}

#[test]
fn insert_and_list() {
    let mut db = DirStore::new();
    db.insert_dir("/tmp/a", Some("alpha"), false).unwrap();
    let dirs = db.list_dirs();
    assert_eq!(dirs.len(), 1);
    assert_eq!(dirs[0].path, "/tmp/a");
    assert_eq!(dirs[0].label, Some("alpha".to_string()));
    assert!(!dirs[0].default);
}

#[test]
fn insert_with_default_clears_others() {
    let mut db = DirStore::new();
    db.insert_dir("/tmp/a", None, true).unwrap();
    db.insert_dir("/tmp/b", None, true).unwrap();
    let dirs = db.list_dirs();
    assert!(!dirs[0].default);
    assert!(dirs[1].default);
}

#[test]
fn insert_fails_on_duplicate() {
    let mut db = DirStore::new();
    db.insert_dir("/tmp/a", None, false).unwrap();
    assert!(db.insert_dir("/tmp/a", None, false).is_err());
}

#[test]
fn db_remove_deletes_entry() {
    let mut db = DirStore::new();
    db.insert_dir("/tmp/a", None, false).unwrap();
    db.insert_dir("/tmp/b", None, false).unwrap();
    db.remove_dir("/tmp/a").unwrap();
    let dirs = db.list_dirs();
    assert_eq!(dirs.len(), 1);
    assert_eq!(dirs[0].path, "/tmp/b");
}

#[test]
fn remove_fails_when_not_found() {
    let mut db = DirStore::new();
    let err = db.remove_dir("/tmp/nonexistent").unwrap_err();
    assert!(err.message().contains("not found"));
}

#[test]
fn remove_hints_trailing_slash() {
    let mut db = DirStore::new();
    db.insert_dir("/tmp/a", None, false).unwrap();
    let err = db.remove_dir("/tmp/a/").unwrap_err();
    assert!(err.message().contains("hint:"));
}

#[test]
fn set_default_updates_correctly() {
    let mut db = DirStore::new();
    db.insert_dir("/tmp/a", None, true).unwrap();
    db.insert_dir("/tmp/b", None, false).unwrap();
    db.set_default("/tmp/b").unwrap();
    let dirs = db.list_dirs();
    assert!(!dirs[0].default);
    assert!(dirs[1].default);
}

#[test]
fn set_default_fails_when_not_found() {
    let mut db = DirStore::new();
    assert!(db.set_default("/tmp/nonexistent").is_err());
}

#[test]
fn add_appends_new_entry() {
    let mut db = DirStore::new();
    db.insert_dir("/tmp/a", None, false).unwrap();
    db.insert_dir("/tmp/b", None, false).unwrap();
    assert_eq!(db.list_dirs().len(), 2);
}

#[test]
fn add_with_label() {
    let mut db = DirStore::new();
    db.insert_dir("/tmp/a", Some("alpha"), false).unwrap();
    assert_eq!(db.list_dirs()[0].label, Some("alpha".to_string()));
}

#[test]
fn add_with_default_clears_existing_defaults() {
    let db = store_with(&[("/tmp/a", true), ("/tmp/b", true)]);
    let directories = db.list_dirs();
    assert!(!directories[0].default);
    assert!(directories[1].default);
}

#[test]
fn add_fails_on_duplicate_path() {
    let mut db = store_with(&[("/tmp/a", false)]);
    let result = db.add_dir("/tmp/a", None, false);
    assert!(result.is_err());
    assert!(result.unwrap_err().message().contains("already exists"));
}

#[test]
fn default_sets_target_and_clears_others() {
    let mut db = store_with(&[("/tmp/a", true), ("/tmp/b", false)]);
    db.set_default("/tmp/b").unwrap();
    let directories = db.list_dirs();
    assert!(!directories[0].default);
    assert!(directories[1].default);
}

#[test]
fn default_fails_when_path_not_found() {
    let mut db = store_with(&[("/tmp/a", false)]);
    let result = db.set_default("/tmp/nonexistent");
    assert!(result.is_err());
    assert!(result.unwrap_err().message().contains("not found"));
}

#[test]
fn default_hints_trailing_slash_difference() {
    let mut db = store_with(&[("/tmp/a", false)]);
    let msg = db.set_default("/tmp/a/").unwrap_err().message();
    assert!(msg.contains("hint:"));
    assert!(msg.contains("/tmp/a"));
}

#[test]
fn remove_remove_deletes_entry() {
    let mut db = store_with(&[("/tmp/a", false), ("/tmp/b", false)]);
    db.remove_dir("/tmp/a").unwrap();
    let directories = db.list_dirs();
    assert_eq!(directories.len(), 1);
    assert_eq!(directories[0].path, "/tmp/b");
}

#[test]
fn remove_fails_when_path_not_found() {
    let mut db = store_with(&[("/tmp/a", false)]);
    let result = db.remove_dir("/tmp/nonexistent");
    assert!(result.is_err());
    assert!(result.unwrap_err().message().contains("not found"));
}

#[test]
fn remove_hints_trailing_slash_difference() {
    let mut db = store_with(&[("/tmp/a", false)]);
    let msg = db.remove_dir("/tmp/a/").unwrap_err().message();
    assert!(msg.contains("hint:"));
    assert!(msg.contains("/tmp/a"));
}

#[test]
fn swap_changes_order() {
    let mut db = store_with(&[("/tmp/a", false), ("/tmp/b", false), ("/tmp/c", false)]);
    db.swap_dirs("/tmp/a", "/tmp/c").unwrap();
    let directories = db.list_dirs();
    assert_eq!(directories[0].path, "/tmp/c");
    assert_eq!(directories[1].path, "/tmp/b");
    assert_eq!(directories[2].path, "/tmp/a");
}

#[test]
fn swap_fails_same_path() {
    let mut db = store_with(&[("/tmp/a", false), ("/tmp/b", false)]);
    let result = db.swap_dirs("/tmp/a", "/tmp/a");
    assert!(result.is_err());
}

#[test]
fn swap_fails_when_path_not_found() {
    let mut db = store_with(&[("/tmp/a", false)]);
    let result = db.swap_dirs("/tmp/nonexistent", "/tmp/a");
    assert!(result.is_err());
    assert!(result.unwrap_err().message().contains("not found"));
}

#[test]
fn swap_hints_trailing_slash() {
    let mut db = store_with(&[("/tmp/a", false), ("/tmp/b", false)]);
    let msg = db.swap_dirs("/tmp/a/", "/tmp/b").unwrap_err().message();
    assert!(msg.contains("hint:"));
}

// Laws on concrete values, and edge cases.

#[test]
fn insert_then_remove_restores_the_list() {
    let mut db = store_with(&[("/a", true), ("/b", false)]);
    db.insert_dir("/c", Some("see"), false).unwrap();
    db.remove_dir("/c").unwrap();
    assert_eq!(paths(&db), vec!["/a".to_string(), "/b".to_string()]);
    assert!(db.list_dirs()[0].default);
    assert!(!db.list_dirs()[1].default);
}

#[test]
fn swapping_twice_restores_the_order() {
    let mut db = store_with(&[("/a", false), ("/b", true), ("/c", false)]);
    db.swap_dirs("/a", "/b").unwrap();
    assert_eq!(paths(&db), vec!["/b".to_string(), "/a".to_string(), "/c".to_string()]);
    assert!(db.list_dirs()[0].default);
    db.swap_dirs("/a", "/b").unwrap();
    assert_eq!(paths(&db), vec!["/a".to_string(), "/b".to_string(), "/c".to_string()]);
    assert!(db.list_dirs()[1].default);
}

#[test]
fn set_default_leaves_exactly_one_default() {
    let mut db = store_with(&[("/a", true), ("/b", false), ("/c", false)]);
    db.set_default("/c").unwrap();
    db.set_default("/c").unwrap();
    let flags: Vec<bool> = db.list_dirs().iter().map(|d| d.default).collect();
    assert_eq!(flags, vec![false, false, true]);
}

#[test]
fn refused_requests_leave_the_list_unchanged() {
    let mut db = store_with(&[("/a", true), ("/b", false)]);
    assert!(db.remove_dir("/zzz").is_err());
    assert!(db.set_default("/zzz").is_err());
    assert!(db.swap_dirs("/a", "/zzz").is_err());
    assert!(db.insert_dir("/a", None, false).is_err());
    assert_eq!(paths(&db), vec!["/a".to_string(), "/b".to_string()]);
    assert!(db.list_dirs()[0].default);
}

#[test]
fn insert_of_a_registered_path_breaks_uniqueness() {
    let mut db = store_with(&[("/a", false)]);
    let err = db.insert_dir("/a", None, false).unwrap_err();
    assert!(matches!(err, CommandError::PathNotUnique));
    assert_eq!(err.message(), "UNIQUE constraint failed: dirs.path");
}

#[test]
fn refused_add_keeps_the_defaults() {
    let mut db = store_with(&[("/a", true), ("/b", false)]);
    assert!(db.add_dir("/b", None, true).is_err());
    assert!(db.list_dirs()[0].default);
    db.add_dir("/c", Some("see"), true).unwrap();
    let flags: Vec<bool> = db.list_dirs().iter().map(|d| d.default).collect();
    assert_eq!(flags, vec![false, false, true]);
}

#[test]
fn refused_default_insert_has_cleared_the_defaults() {
    let mut db = store_with(&[("/a", true), ("/b", false)]);
    assert!(db.insert_dir("/b", None, true).is_err());
    assert_eq!(paths(&db), vec!["/a".to_string(), "/b".to_string()]);
    assert!(db.list_dirs().iter().all(|d| !d.default));
}

#[test]
fn insert_keeps_the_label_and_appends_last() {
    let mut db = store_with(&[("/a", false)]);
    db.insert_dir("/b", Some("bee"), true).unwrap();
    let dirs = db.list_dirs();
    assert_eq!(dirs[1].path, "/b");
    assert_eq!(dirs[1].label, Some("bee".to_string()));
    assert!(dirs[1].default);
}

#[test]
fn swap_reports_the_first_missing_path() {
    let mut db = store_with(&[("/a", false)]);
    match db.swap_dirs("/x", "/y").unwrap_err() {
        CommandError::NotFound { path, hint } => {
            assert_eq!(path, "/x");
            assert_eq!(hint, None);
        }
        other => panic!("unexpected {:?}", other),
    }
    match db.swap_dirs("/a", "/y").unwrap_err() {
        CommandError::NotFound { path, .. } => assert_eq!(path, "/y"),
        other => panic!("unexpected {:?}", other),
    }
    assert!(matches!(db.swap_dirs("/a", "/a").unwrap_err(), CommandError::SelfSwap));
}

#[test]
fn hint_removes_every_trailing_slash() {
    let mut db = store_with(&[("/tmp/a", false)]);
    let msg = db.remove_dir("/tmp/a///").unwrap_err().message();
    assert_eq!(msg, "not found: /tmp/a///\nhint: did you mean '/tmp/a'?");
}

#[test]
fn hint_adds_a_trailing_slash() {
    let mut db = store_with(&[("/tmp/a/", false)]);
    let msg = db.set_default("/tmp/a").unwrap_err().message();
    assert_eq!(msg, "not found: /tmp/a\nhint: did you mean '/tmp/a/'?");
}

#[test]
fn no_hint_without_the_other_spelling() {
    let mut db = store_with(&[("/tmp/b", false)]);
    let msg = db.remove_dir("/tmp/a").unwrap_err().message();
    assert_eq!(msg, "not found: /tmp/a");
}

#[test]
fn path_exists_and_all_paths() {
    let db = store_with(&[("/a", false), ("/b", false)]);
    assert!(db.path_exists("/a"));
    assert!(!db.path_exists("/a/"));
    assert_eq!(db.all_paths(), vec!["/a".to_string(), "/b".to_string()]);
    assert_eq!(db.len(), 2);
}

fn row(path: &str, default: bool) -> Directory {
    Directory { path: path.to_string(), label: None, default }
}

#[test]
fn from_rows_accepts_a_valid_list() {
    let db = DirStore::from_rows(vec![row("/a", false), row("/b", true)]).unwrap();
    assert_eq!(paths(&db), vec!["/a".to_string(), "/b".to_string()]);
    assert!(db.list_dirs()[1].default);
}

#[test]
fn from_rows_rejects_a_repeated_path() {
    assert!(DirStore::from_rows(vec![row("/a", false), row("/a", false)]).is_none());
}

#[test]
fn from_rows_rejects_two_defaults() {
    assert!(DirStore::from_rows(vec![row("/a", true), row("/b", true)]).is_none());
}
