use oss_emulator::storage::{
    bucket_infos, holds_only_metadata, list_objects, pending_uploads, select_buckets, BucketEntry,
    FoundObject, RootEntry,
};

fn found(keys: &[&str]) -> Vec<FoundObject> {
    keys.iter()
        .map(|k| FoundObject { key: k.to_string(), summary: Some(("etag-".to_string() + k, k.len() as i64)) })
        .collect()
}

fn keys(r: &oss_emulator::storage::ListObjectsResult) -> Vec<String> {
    r.contents.iter().map(|e| e.key.clone()).collect()
}

#[test]
fn plain_listing() {
    let r = list_objects(&found(&["a", "b", "c"]), "", "", 100, "");
    assert_eq!(keys(&r), vec!["a", "b", "c"]);
    assert!(r.common_prefixes.is_empty());
    assert_eq!(r.next_marker, "c");
    assert!(!r.is_truncated);
    assert_eq!(r.contents[1].etag, "etag-b");
    assert_eq!(r.contents[1].size, 1);
    assert_eq!(r.contents[0].last_modified, "2012-02-24T08:42:32.000Z");
    assert_eq!(r.contents[0].storage_class, "Standard");
}

#[test]
fn listing_by_prefix() {
    let r = list_objects(&found(&["docs/a", "img/b", "docs/c"]), "docs/", "", 100, "");
    assert_eq!(keys(&r), vec!["docs/a", "docs/c"]);
}

#[test]
fn listing_after_marker() {
    let r = list_objects(&found(&["a", "b", "c", "d"]), "", "b", 100, "");
    assert_eq!(keys(&r), vec!["b", "c", "d"]);
    // Once one key at or after the marker is met, later keys all count.
    let r = list_objects(&found(&["c", "a", "b"]), "", "b", 100, "");
    assert_eq!(keys(&r), vec!["c", "a", "b"]);
}

#[test]
fn listing_rolls_up_common_prefixes() {
    let r = list_objects(&found(&["a/1", "a/2", "b", "c/x/y"]), "", "", 100, "/");
    assert_eq!(keys(&r), vec!["b"]);
    assert_eq!(r.common_prefixes, vec!["a//", "c//"]);
    assert_eq!(r.next_marker, "b");
}

#[test]
fn common_prefix_keeps_the_prefix() {
    let r = list_objects(&found(&["p/q/1", "p/r"]), "p/", "", 100, "/");
    assert_eq!(r.common_prefixes, vec!["p/q//"]);
    assert_eq!(keys(&r), vec!["p/r"]);
}

#[test]
fn listing_is_truncated_at_the_page_size() {
    let r = list_objects(&found(&["a/1", "b", "c"]), "", "", 2, "/");
    assert_eq!(r.common_prefixes, vec!["a//"]);
    assert_eq!(keys(&r), vec!["b"]);
    assert!(r.is_truncated);
    assert_eq!(r.next_marker, "b");
}

#[test]
fn page_size_defaults_and_limits() {
    let many: Vec<String> = (0..120).map(|i| format!("k{:03}", i)).collect();
    let refs: Vec<&str> = many.iter().map(|s| s.as_str()).collect();
    let r = list_objects(&found(&refs), "", "", 0, "");
    assert_eq!(r.contents.len(), 100);
    assert!(r.is_truncated);
    let r = list_objects(&found(&refs), "", "", -3, "");
    assert_eq!(r.contents.len(), 100);
    let r = list_objects(&found(&refs), "", "", 5000, "");
    assert_eq!(r.contents.len(), 120);
    assert!(!r.is_truncated);
}

#[test]
fn unreadable_record_counts_but_is_not_listed() {
    let mut f = found(&["a", "b"]);
    f.push(FoundObject { key: "c".to_string(), summary: None });
    let r = list_objects(&f, "", "", 100, "");
    assert_eq!(keys(&r), vec!["a", "b"]);
    assert_eq!(r.next_marker, "c");
    let r = list_objects(&f, "", "", 2, "");
    assert!(r.is_truncated);
}

#[test]
fn buckets_are_directories_with_a_record() {
    let entries = vec![
        RootEntry { name: "a".to_string(), is_dir: true, has_bucket_metadata: true },
        RootEntry { name: "file".to_string(), is_dir: false, has_bucket_metadata: false },
        RootEntry { name: "empty".to_string(), is_dir: true, has_bucket_metadata: false },
        RootEntry { name: "b".to_string(), is_dir: true, has_bucket_metadata: true },
    ];
    assert_eq!(select_buckets(&entries), vec!["a", "b"]);
}

#[test]
fn bucket_infos_skip_unreadable_records() {
    let f = vec![
        ("a".to_string(), Some("2024-01-01".to_string())),
        ("b".to_string(), None),
        ("c".to_string(), Some("".to_string())),
    ];
    let infos = bucket_infos(&f);
    let got: Vec<(String, String)> = infos.iter().map(|i| (i.name.clone(), i.creation_date.clone())).collect();
    assert_eq!(got, vec![("a".to_string(), "2024-01-01".to_string()), ("c".to_string(), "".to_string())]);
}

#[test]
fn bucket_with_only_its_record_is_empty() {
    assert!(holds_only_metadata(&vec![]));
    assert!(holds_only_metadata(&vec![".meta".to_string()]));
    assert!(!holds_only_metadata(&vec![".meta".to_string(), "obj".to_string()]));
}

#[test]
fn pending_uploads_are_directories_with_parts_and_no_record() {
    let entries = vec![
        BucketEntry { name: "done".to_string(), is_dir: true, has_object_metadata: true, file_names: vec![".part_1".to_string()] },
        BucketEntry { name: "going".to_string(), is_dir: true, has_object_metadata: false, file_names: vec!["x".to_string(), ".part_2".to_string()] },
        BucketEntry { name: "idle".to_string(), is_dir: true, has_object_metadata: false, file_names: vec!["x".to_string()] },
        BucketEntry { name: ".part_9".to_string(), is_dir: false, has_object_metadata: false, file_names: vec![] },
    ];
    let u = pending_uploads(&entries);
    assert_eq!(u, vec![("going".to_string(), "0000000".to_string())]);
}
