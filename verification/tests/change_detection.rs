use gh_backup::caching::{needs_transfer, Cache, CachedRepo, CACHE_FILE_NAME};
use gh_backup::repo::{RepoDescriptor, Timestamp};
use gh_backup::transfer::{mirror_dir_name, plan_backup, TransferStep};

const T0: Timestamp = Timestamp { secs: 1_700_000_000, nanos: 0 };

fn widgets(size: Option<u32>, pushed_at: Option<Timestamp>) -> RepoDescriptor {
    RepoDescriptor {
        name: "widgets".to_string(),
        full_name: Some("acme/widgets".to_string()),
        clone_url: Some("https://example.com/acme/widgets.git".to_string()),
        default_branch: Some("trunk".to_string()),
        size,
        pushed_at,
    }
}

fn record(size: u32, pushed_at: Timestamp) -> CachedRepo {
    CachedRepo {
        full_name: "acme/widgets".to_string(),
        last_fetched: T0,
        hash: String::new(),
        reported_last_push: pushed_at,
        reported_size: size,
    }
}

fn widgets_cache() -> Cache {
    let mut cache = Cache::new();
    cache.insert("acme/widgets".to_string(), record(100, T0));
    cache
}

#[test]
fn unchanged_repository_with_local_copy_is_skipped() {
    let cached = record(100, T0);
    let repo = widgets(Some(100), Some(T0));
    assert!(!cached.need_download(&repo, true));
    assert!(!needs_transfer(Some(&cached), &repo, true));
}

#[test]
fn missing_local_copy_forces_transfer() {
    let cached = record(100, T0);
    let repo = widgets(Some(100), Some(T0));
    assert!(cached.need_download(&repo, false));
    assert!(needs_transfer(Some(&cached), &repo, false));
}

#[test]
fn changed_size_forces_transfer() {
    let cached = record(100, T0);
    assert!(cached.need_download(&widgets(Some(101), Some(T0)), true));
    assert!(cached.need_download(&widgets(Some(99), Some(T0)), true));
}

#[test]
fn changed_push_time_forces_transfer() {
    let cached = record(100, T0);
    let later = Timestamp { secs: T0.secs + 1, nanos: 0 };
    let same_second = Timestamp { secs: T0.secs, nanos: 1 };
    assert!(cached.need_download(&widgets(Some(100), Some(later)), true));
    assert!(cached.need_download(&widgets(Some(100), Some(same_second)), true));
}

#[test]
fn absent_metadata_forces_transfer() {
    let cached = record(100, T0);
    assert!(cached.need_download(&widgets(None, Some(T0)), true));
    assert!(cached.need_download(&widgets(Some(100), None), true));
    assert!(cached.need_download(&widgets(None, None), true));
}

#[test]
fn missing_record_forces_transfer_whatever_else_holds() {
    for exists in [false, true] {
        assert!(needs_transfer(None, &widgets(Some(100), Some(T0)), exists));
        assert!(needs_transfer(None, &widgets(None, None), exists));
    }
}

#[test]
fn mirror_directory_is_named_after_the_identifier() {
    assert_eq!(mirror_dir_name("acme/widgets"), "acme_widgets.git");
    assert_eq!(mirror_dir_name("widgets"), "widgets.git");
    assert_eq!(mirror_dir_name("a/b/c"), "a_b_c.git");
    assert_eq!(mirror_dir_name(""), ".git");
    assert_eq!(mirror_dir_name("générique/dépôt"), "générique_dépôt.git");
}

#[test]
fn cached_and_unchanged_repository_is_not_transferred() {
    let cache = widgets_cache();
    let repo = widgets(Some(100), Some(T0));
    let dest = format!("/backup/{}", mirror_dir_name(repo.identifier()));
    assert_eq!(dest, "/backup/acme_widgets.git");
    let step = plan_backup(&cache, &repo, &dest, true, true).unwrap();
    assert!(matches!(step, TransferStep::Skip));
}

#[test]
fn cached_repository_with_new_size_is_fetched() {
    let cache = widgets_cache();
    let repo = widgets(Some(150), Some(T0));
    let dest = "/backup/acme_widgets.git";
    match plan_backup(&cache, &repo, dest, true, true).unwrap() {
        TransferStep::Run(invocation) => {
            assert_eq!(invocation.args, vec!["fetch", "--all", "--prune"]);
            assert_eq!(invocation.working_dir.as_deref(), Some(dest));
        }
        TransferStep::Skip => panic!("a changed repository was skipped"),
    }
}

#[test]
fn cache_is_keyed_by_the_full_identifier() {
    let mut cache = Cache::new();
    cache.insert("widgets".to_string(), record(100, T0));
    let repo = widgets(Some(100), Some(T0));
    let step = plan_backup(&cache, &repo, "/backup/acme_widgets.git", true, true).unwrap();
    assert!(matches!(step, TransferStep::Run(_)));

    let mut short = widgets(Some(100), Some(T0));
    short.full_name = None;
    let step = plan_backup(&cache, &short, "/backup/widgets.git", true, true).unwrap();
    assert!(matches!(step, TransferStep::Skip));
}

#[test]
fn cache_keeps_the_last_entry_of_an_identifier() {
    let entries = vec![
        ("acme/widgets".to_string(), record(1, T0)),
        ("acme/gadgets".to_string(), record(2, T0)),
        ("acme/widgets".to_string(), record(3, T0)),
    ];
    let cache = Cache::from_entries(entries);
    assert_eq!(cache.len(), 2);
    assert_eq!(cache.get("acme/widgets").unwrap().reported_size, 3);
    assert_eq!(cache.get("acme/gadgets").unwrap().reported_size, 2);
    assert!(cache.get("acme/other").is_none());
    assert_eq!(Cache::new().len(), 0);
    assert_eq!(Cache::from_entries(Vec::new()).len(), 0);
}

#[test]
fn cache_file_has_a_fixed_name() {
    assert_eq!(CACHE_FILE_NAME, "cache.json");
}
