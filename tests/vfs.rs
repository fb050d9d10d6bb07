use aliyundrive_webdav::{
    ancestor_href, encode_path, find_child, find_in_listing, leaf_of, needs_escape, parent_of, settle_refresh,
    AliyunDavFile, AliyunFile, DirCache, FsError, PathWalk, ReadDirPlan, SeekOrigin, WalkStep,
};

fn file(id: &str, name: &str, is_dir: bool, size: u64) -> AliyunFile {
    AliyunFile {
        id: id.to_string(),
        name: name.to_string(),
        is_dir,
        size,
        updated_at: 1_600_000_000,
    }
}

fn names(files: &[AliyunFile]) -> Vec<String> {
    files.iter().map(|f| f.id.clone()).collect()
}

/// Resolves `path` as the filesystem does, with `listings` standing for the drive;
/// returns the file and the number of listings fetched from the drive.
fn resolve(
    cache: &DirCache,
    path: &str,
    drive: &dyn Fn(&str) -> Option<Vec<AliyunFile>>,
) -> (Result<Option<AliyunFile>, FsError>, usize) {
    let mut calls = 0;
    if let Some(f) = cache.find_in_cache(path) {
        return (Ok(Some(f)), calls);
    }
    let (r, n) = walk_drive(cache, path, drive);
    calls += n;
    (r, calls)
}

/// Lists directory `dir`, resolving it first as the filesystem does.
fn read_dir(
    cache: &DirCache,
    dir: &str,
    drive: &dyn Fn(&str) -> Option<Vec<AliyunFile>>,
) -> (Result<Vec<AliyunFile>, FsError>, usize) {
    let mut calls = 0;
    let resolved = if dir.is_empty() {
        None
    } else {
        let (r, n) = resolve(cache, dir, drive);
        calls += n;
        match r {
            Ok(f) => f,
            Err(e) => return (Err(e), calls),
        }
    };
    let files = match cache.plan_read_dir(dir, resolved) {
        Err(e) => return (Err(e), calls),
        Ok(ReadDirPlan::Fetch { parent_id }) => {
            calls += 1;
            cache.finish_fetch(dir.to_string(), drive(&parent_id))
        }
        Ok(ReadDirPlan::Refresh { cached, .. }) => Ok(settle_refresh(cached, None)),
    };
    (files, calls)
}

fn walk_drive(
    cache: &DirCache,
    path: &str,
    drive: &dyn Fn(&str) -> Option<Vec<AliyunFile>>,
) -> (Result<Option<AliyunFile>, FsError>, usize) {
    let mut calls = 0;
    let mut walk = PathWalk::new(path);
    let mut dir = walk.current_dir();
    loop {
        let (listed, n) = read_dir(cache, &dir, drive);
        calls += n;
        let files = match listed {
            Ok(files) => files,
            Err(e) => return (Err(e), calls),
        };
        match walk.advance(&files) {
            WalkStep::Found(f) => return (Ok(Some(f)), calls),
            WalkStep::Next(next) => {
                if let Err(e) = ancestor_href(&next) {
                    return (Err(e), calls);
                }
                dir = next
            }
            WalkStep::Exhausted => return (Ok(None), calls),
        }
    }
}

fn drive(parent_id: &str) -> Option<Vec<AliyunFile>> {
    match parent_id {
        "root" => Some(vec![file("id-a", "a", true, 0), file("id-r", "readme.md", false, 7)]),
        "id-a" => Some(vec![file("id-b", "b.txt", false, 42), file("id-c", "c", true, 0)]),
        "id-c" => Some(vec![file("id-d", "d.txt", false, 1)]),
        _ => None,
    }
}

#[test]
fn root_resolves_without_remote_calls() {
    let cache = DirCache::new(100);
    let (r, calls) = resolve(&cache, "", &drive);
    let root = r.unwrap().unwrap();
    assert_eq!(root.id, "root");
    assert!(root.is_dir);
    assert_eq!(calls, 0);
}

#[test]
fn metadata_of_uncached_file_lists_each_ancestor() {
    let cache = DirCache::new(100);
    let (r, calls) = resolve(&cache, "a/b.txt", &drive);
    let f = r.unwrap().unwrap();
    assert_eq!(f.id, "id-b");
    assert_eq!(f.size, 42);
    assert_eq!(calls, 2);
    assert_eq!(names(&cache.get("").unwrap()), vec!["id-a", "id-r"]);
    assert_eq!(names(&cache.get("a").unwrap()), vec!["id-b", "id-c"]);
}

#[test]
fn repeated_metadata_hits_the_cache() {
    let cache = DirCache::new(100);
    let (_, first) = resolve(&cache, "a/b.txt", &drive);
    assert_eq!(first, 2);
    let (r, calls) = resolve(&cache, "a/b.txt", &drive);
    assert_eq!(r.unwrap().unwrap().id, "id-b");
    assert_eq!(calls, 0);
}

#[test]
fn deep_walk_stops_at_first_match() {
    let cache = DirCache::new(100);
    let (r, calls) = resolve(&cache, "x/y/readme.md", &drive);
    assert_eq!(r.unwrap().unwrap().id, "id-r");
    assert_eq!(calls, 1);
    let cache = DirCache::new(100);
    let (r, calls) = resolve(&cache, "a/c/d.txt", &drive);
    assert_eq!(r.unwrap().unwrap().id, "id-d");
    assert_eq!(calls, 3);
}

#[test]
fn walk_without_match_is_none_or_not_found() {
    let cache = DirCache::new(100);
    let (r, calls) = resolve(&cache, "a/nothing", &drive);
    assert!(matches!(r, Ok(None)));
    assert_eq!(calls, 2);
    let cache = DirCache::new(100);
    let (r, _) = resolve(&cache, "zzz/nothing", &drive);
    assert_eq!(r.map(|o| o.is_some()), Err(FsError::NotFound));
}

#[test]
fn cached_entry_is_served_when_refresh_is_late() {
    let cache = DirCache::new(100);
    cache.cache_dir(String::new(), vec![file("old", "x", false, 1)]);
    let plan = cache.plan_read_dir("", None).unwrap();
    let cached = match plan {
        ReadDirPlan::Refresh { parent_id, cached } => {
            assert_eq!(parent_id, "root");
            cached
        }
        ReadDirPlan::Fetch { .. } => panic!("expected a cached listing"),
    };
    let served = settle_refresh(cached, None);
    assert_eq!(names(&served), vec!["old"]);
    // the late refresh still lands in the cache
    let fresh = cache.cache_listing(String::new(), vec![file("new", "x", false, 2)]);
    assert_eq!(names(&fresh), vec!["new"]);
    let plan = cache.plan_read_dir("", None).unwrap();
    match plan {
        ReadDirPlan::Refresh { cached, .. } => assert_eq!(names(&cached), vec!["new"]),
        ReadDirPlan::Fetch { .. } => panic!("expected a cached listing"),
    }
}

#[test]
fn refreshed_listing_wins_when_in_time() {
    let served = settle_refresh(vec![file("old", "x", false, 1)], Some(vec![file("new", "x", false, 2)]));
    assert_eq!(names(&served), vec!["new"]);
}

#[test]
fn failed_fetch_is_not_found() {
    let cache = DirCache::new(100);
    assert!(matches!(cache.finish_fetch(String::new(), None), Err(FsError::NotFound)));
    assert!(cache.get("").is_none());
    match cache.plan_read_dir("", None) {
        Ok(ReadDirPlan::Fetch { parent_id }) => assert_eq!(parent_id, "root"),
        _ => panic!("expected a fetch of the root"),
    }
    assert!(matches!(cache.plan_read_dir("missing", None), Err(FsError::NotFound)));
}

#[test]
fn same_name_in_other_directory_does_not_leak() {
    let cache = DirCache::new(100);
    cache.cache_dir(String::new(), vec![file("d1", "one", true, 0), file("d2", "two", true, 0)]);
    cache.cache_dir("one".to_string(), vec![file("f1", "same.txt", false, 1)]);
    cache.cache_dir("two".to_string(), vec![file("f2", "same.txt", false, 2), file("f3", "same.txt", false, 3)]);
    assert_eq!(cache.find_in_cache("one/same.txt").unwrap().id, "f1");
    assert_eq!(cache.find_in_cache("two/same.txt").unwrap().id, "f2");
    assert!(cache.find_in_cache("three/same.txt").is_none());
    assert!(cache.find_in_cache("one/Same.txt").is_none());
}

#[test]
fn listing_lookup_is_exact_and_first() {
    let files = vec![file("1", "a", false, 0), file("2", "b", false, 0), file("3", "b", false, 0)];
    assert_eq!(find_child(&files, &"b".to_string()).unwrap().id, "2");
    assert!(find_child(&files, &"B".to_string()).is_none());
    assert_eq!(find_in_listing("x/b", Some(&files)).unwrap().id, "2");
    assert!(find_in_listing("x/b", None).is_none());
    assert_eq!(find_in_listing("", None).unwrap().id, "root");
}

#[test]
fn parent_and_leaf_of_paths() {
    assert_eq!(parent_of("a/b/c.txt"), "a/b");
    assert_eq!(leaf_of("a/b/c.txt"), "c.txt");
    assert_eq!(parent_of("c.txt"), "");
    assert_eq!(leaf_of("c.txt"), "c.txt");
    assert_eq!(parent_of(""), "");
    assert_eq!(leaf_of(""), "");
}

#[test]
fn walk_lists_root_then_ancestors() {
    let mut walk = PathWalk::new("a/b c/d.txt");
    assert_eq!(walk.current_dir(), "");
    assert!(matches!(walk.advance(&vec![]), WalkStep::Next(ref k) if k == "a"));
    assert_eq!(walk.current_dir(), "a");
    assert!(matches!(walk.advance(&vec![]), WalkStep::Next(ref k) if k == "a/b c"));
    assert!(matches!(walk.advance(&vec![]), WalkStep::Exhausted));
    let mut walk = PathWalk::new("a/b c/d.txt");
    match walk.advance(&vec![file("z", "d.txt", false, 5)]) {
        WalkStep::Found(f) => assert_eq!(f.id, "z"),
        _ => panic!("expected the leaf at the root"),
    }
}

#[test]
fn encode_keeps_unreserved_and_slash() {
    assert_eq!(encode_path(b"/a/b-c_d.e~f"), "/a/b-c_d.e~f");
    assert_eq!(encode_path("/a b/ü%".as_bytes()), "/a%20b/%C3%BC%25");
    assert_eq!(encode_path(b""), "");
    assert_eq!(encode_path(&[0x00, 0xff, b'Z', b'z', b'0', b'9']), "%00%FFZz09");
    assert!(needs_escape(b' '));
    assert!(!needs_escape(b'/'));
    assert!(!needs_escape(b'~'));
    assert!(needs_escape(b'+'));
    assert!(needs_escape(0x80));
}

#[test]
fn seek_start_is_exact() {
    let mut h = AliyunDavFile::new(file("f", "f", false, 100), None);
    assert_eq!(h.position(), 0);
    assert_eq!(h.seek(SeekOrigin::Start(12345)), 12345);
    assert_eq!(h.position(), 12345);
    assert_eq!(h.seek(SeekOrigin::Start(u64::MAX)), u64::MAX);
}

#[test]
fn seek_end_then_read_range() {
    let mut h = AliyunDavFile::new(file("f", "f", false, 100), Some("https://dl/f".to_string()));
    assert_eq!(h.seek(SeekOrigin::End(5)), 95);
    let q = h.read_request(10).unwrap();
    assert_eq!(q.offset, 95);
    assert_eq!(q.count, 10);
    assert_eq!(q.file_id, "f");
    assert_eq!(q.url, "https://dl/f");
    assert_eq!(h.finish_read(Some(5)), Ok(5));
    assert_eq!(h.position(), 100);
    assert_eq!(h.finish_read(None), Err(FsError::NotFound));
    assert_eq!(h.position(), 100);
}

#[test]
fn seek_wraps_without_clamping() {
    let mut h = AliyunDavFile::new(file("f", "f", false, 10), None);
    assert_eq!(h.seek(SeekOrigin::End(11)), u64::MAX);
    assert_eq!(h.seek(SeekOrigin::End(-5)), 15);
    assert_eq!(h.seek(SeekOrigin::Current(3)), 18);
    assert_eq!(h.seek(SeekOrigin::Current(-20)), u64::MAX - 1);
    assert_eq!(h.seek(SeekOrigin::End(i64::MIN)), 10 + (1u64 << 63));
}

#[test]
fn read_without_url_fails_and_keeps_cursor() {
    let mut h = AliyunDavFile::new(file("f", "f", false, 100), None);
    assert_eq!(h.seek(SeekOrigin::Start(7)), 7);
    assert!(matches!(h.read_request(10), Err(FsError::NotFound)));
    assert_eq!(h.position(), 7);
    assert_eq!(h.seek(SeekOrigin::Current(1)), 8);
}

#[test]
fn writes_are_refused() {
    let h = AliyunDavFile::new(file("f", "f", false, 1), None);
    assert_eq!(h.write_bytes(b"x"), Err(FsError::NotImplemented));
    assert_eq!(h.flush(), Err(FsError::NotImplemented));
    assert_eq!(h.metadata().size, 1);
    assert_eq!(h.metadata().name, "f");
}

#[test]
fn listing_a_directory_resolves_it_through_the_walk() {
    let cache = DirCache::new(100);
    let (files, calls) = read_dir(&cache, "a/c", &drive);
    assert_eq!(names(&files.unwrap()), vec!["id-d"]);
    assert_eq!(calls, 3);
    let dir = file("id-c", "c", true, 0);
    match cache.plan_read_dir("a/c", Some(dir)) {
        Ok(ReadDirPlan::Refresh { parent_id, cached }) => {
            assert_eq!(parent_id, "id-c");
            assert_eq!(names(&cached), vec!["id-d"]);
        }
        _ => panic!("expected the cached listing"),
    }
}

#[test]
fn ancestor_paths_are_encoded() {
    assert_eq!(ancestor_href("a/b c").unwrap(), "/a/b%20c");
    assert_eq!(ancestor_href("").unwrap(), "/");
    assert_eq!(ancestor_href("100%/ü").unwrap(), "/100%25/%C3%BC");
}
