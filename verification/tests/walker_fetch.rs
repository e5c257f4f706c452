use safe_gateway::fetcher::{fetch_file, FetchError, LookupError};
use safe_gateway::store::{
    DirectoryNode, DirectoryStore, FileEntry, ServiceEntry, SubDirEntry,
};
use safe_gateway::walker::{get_final_subdirectory, WalkError};

fn node(name: &str, subs: Vec<(&str, usize)>, files: Vec<(&str, &[u8])>) -> DirectoryNode {
    DirectoryNode {
        name: name.to_string(),
        sub_directories: subs
            .into_iter()
            .map(|(n, k)| SubDirEntry { name: n.to_string(), key: k })
            .collect(),
        files: files
            .into_iter()
            .map(|(n, c)| FileEntry { name: n.to_string(), content: c.to_vec() })
            .collect(),
    }
}

/// A tree with sub-directories a -> b -> c under the root, and a service
/// entry pointing at the root.
fn sample_store() -> DirectoryStore {
    DirectoryStore {
        nodes: vec![
            node("root", vec![("a", 1)], vec![("index.html", b"<html>home</html>")]),
            node("a", vec![("b", 2)], vec![]),
            node("b", vec![("c", 3)], vec![("readme.md", b"# hello")]),
            node("c", vec![], vec![]),
        ],
        services: vec![ServiceEntry {
            site_name: "invoice-app".to_string(),
            service_name: "www".to_string(),
            root_key: 0,
        }],
        user_root: 0,
    }
}

#[test]
fn walk_two_segments_reaches_b() {
    let store = sample_store();
    let key = get_final_subdirectory(
        &store,
        &vec!["a".to_string(), "b".to_string()],
        Some(0),
    )
    .unwrap();
    assert_eq!(store.nodes[key].name, "b");
    assert_eq!(store.nodes[key].files[0].name, "readme.md");
}

#[test]
fn walk_missing_segment_reports_it() {
    let store = sample_store();
    let r = get_final_subdirectory(&store, &vec!["a".to_string(), "x".to_string()], Some(0));
    match r {
        Err(WalkError::SegmentNotFound(s)) => assert_eq!(s, "x"),
        _ => panic!("expected a missing segment"),
    }
}

#[test]
fn walk_empty_segments_returns_start() {
    let store = sample_store();
    let key = get_final_subdirectory(&store, &vec![], Some(2)).unwrap();
    assert_eq!(key, 2);
}

#[test]
fn walk_without_start_uses_user_root() {
    let store = sample_store();
    let key = get_final_subdirectory(&store, &vec!["a".to_string()], None).unwrap();
    assert_eq!(store.nodes[key].name, "a");
}

#[test]
fn fetch_file_reads_full_content() {
    let store = sample_store();
    let bytes = fetch_file(
        &store,
        &"invoice-app".to_string(),
        &"www".to_string(),
        &vec!["a".to_string(), "b".to_string()],
        &"readme.md".to_string(),
    )
    .unwrap();
    assert_eq!(bytes, b"# hello".to_vec());
}

#[test]
fn fetch_missing_file_fails() {
    let store = sample_store();
    let r = fetch_file(
        &store,
        &"invoice-app".to_string(),
        &"www".to_string(),
        &vec!["a".to_string()],
        &"readme.md".to_string(),
    );
    assert!(matches!(r, Err(LookupError::Fetch(FetchError::FileNotFound))));
}

#[test]
fn fetch_unknown_service_fails() {
    let store = sample_store();
    let r = fetch_file(
        &store,
        &"invoice-app".to_string(),
        &"blog".to_string(),
        &vec![],
        &"index.html".to_string(),
    );
    assert!(matches!(r, Err(LookupError::ServiceNotFound)));
}
