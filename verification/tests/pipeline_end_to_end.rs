use safe_gateway::pipeline::{handle, RequestHost};
use safe_gateway::store::{
    DirectoryNode, DirectoryStore, FileEntry, ServiceEntry, SubDirEntry,
};

/// The published site: service root 0 holds `index.html` and a `docs`
/// sub-directory with `readme.md`.
fn published_store() -> DirectoryStore {
    DirectoryStore {
        nodes: vec![
            DirectoryNode {
                name: "www-root".to_string(),
                sub_directories: vec![SubDirEntry { name: "docs".to_string(), key: 1 }],
                files: vec![FileEntry {
                    name: "index.html".to_string(),
                    content: b"<html>home</html>".to_vec(),
                }],
            },
            DirectoryNode {
                name: "docs".to_string(),
                sub_directories: vec![],
                files: vec![FileEntry {
                    name: "readme.md".to_string(),
                    content: b"# readme".to_vec(),
                }],
            },
        ],
        services: vec![ServiceEntry {
            site_name: "invoice-app".to_string(),
            service_name: "www".to_string(),
            root_key: 0,
        }],
        user_root: 0,
    }
}

fn domain(h: &str) -> RequestHost {
    RequestHost::Domain(h.to_string())
}

#[test]
fn end_to_end_fetches_markdown_file() {
    let store = published_store();
    let r = handle(&store, &domain("invoice-app.nobackend-example"), "/docs/readme.md");
    assert_eq!(r.status, 200);
    assert_eq!(r.content_type, "text/markdown");
    assert_eq!(r.body, b"# readme".to_vec());
}

#[test]
fn end_to_end_root_path_serves_index_html() {
    let store = published_store();
    let r = handle(&store, &domain("invoice-app.nobackend-example"), "/");
    assert_eq!(r.status, 200);
    assert_eq!(r.content_type, "text/html");
    assert_eq!(r.body, b"<html>home</html>".to_vec());
}

#[test]
fn end_to_end_ip_literal_is_rejected() {
    let store = published_store();
    let r = handle(&store, &RequestHost::IpLiteral, "/docs/readme.md");
    assert_eq!(r.status, 404);
    assert_eq!(r.body, b"Can't connect with IP".to_vec());
}

#[test]
fn end_to_end_single_label_host_is_bad_request() {
    let store = published_store();
    let r = handle(&store, &domain("localhost"), "/");
    assert_eq!(r.status, 400);
    assert_eq!(r.body, b"no site name in host".to_vec());
}

#[test]
fn end_to_end_unknown_service_is_not_found() {
    let store = published_store();
    let r = handle(&store, &domain("blog.invoice-app.nobackend-example"), "/");
    assert_eq!(r.status, 404);
    assert_eq!(r.body, b"service not found".to_vec());
}

#[test]
fn end_to_end_missing_directory_names_the_segment() {
    let store = published_store();
    let r = handle(&store, &domain("invoice-app.nobackend-example"), "/nope/readme.md");
    assert_eq!(r.status, 404);
    assert_eq!(r.body, b"directory not found: nope".to_vec());
}

#[test]
fn end_to_end_missing_file_is_not_found() {
    let store = published_store();
    let r = handle(&store, &domain("invoice-app.nobackend-example"), "/docs/other.md");
    assert_eq!(r.status, 404);
    assert_eq!(r.body, b"file not found".to_vec());
}

#[test]
fn repeated_requests_get_byte_identical_answers() {
    let store = published_store();
    let first = handle(&store, &domain("invoice-app.nobackend-example"), "/docs/readme.md");
    let second = handle(&store, &domain("invoice-app.nobackend-example"), "/docs/readme.md");
    assert_eq!(first.status, second.status);
    assert_eq!(first.content_type, second.content_type);
    assert_eq!(first.body, second.body);
}
