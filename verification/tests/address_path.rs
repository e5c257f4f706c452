use safe_gateway::address::{resolve, AddressError};
use safe_gateway::resource_path::resolve_path;

#[test]
fn resolve_two_labels_defaults_service_to_www() {
    let addr = resolve("invoice-app.nobackend-example").unwrap();
    assert_eq!(addr.site_name, "invoice-app");
    assert_eq!(addr.service_name, "www");
}

#[test]
fn resolve_three_labels() {
    let addr = resolve("x.y.z").unwrap();
    assert_eq!(addr.site_name, "y");
    assert_eq!(addr.service_name, "x");
}

#[test]
fn resolve_four_labels_keeps_service_order() {
    let addr = resolve("a.b.c.example").unwrap();
    assert_eq!(addr.site_name, "c");
    assert_eq!(addr.service_name, "a.b");
}

#[test]
fn resolve_single_label_has_no_site_name() {
    assert!(matches!(resolve("nobackend-example"), Err(AddressError::NoSiteName)));
}

#[test]
fn resolve_empty_host_has_no_top_level_label() {
    assert!(matches!(resolve(""), Err(AddressError::NoTopLevelLabel)));
}

#[test]
fn resolve_path_empty_defaults_to_index() {
    let rp = resolve_path("");
    assert!(rp.directory_segments.is_empty());
    assert_eq!(rp.file_name, "index.html");
}

#[test]
fn resolve_path_plain_file() {
    let rp = resolve_path("a/b/c.txt");
    assert_eq!(rp.directory_segments, vec!["a".to_string(), "b".to_string()]);
    assert_eq!(rp.file_name, "c.txt");
}

#[test]
fn resolve_path_trailing_slash_defaults_to_index() {
    let rp = resolve_path("a/b/");
    assert_eq!(rp.directory_segments, vec!["a".to_string(), "b".to_string()]);
    assert_eq!(rp.file_name, "index.html");
}

#[test]
fn resolve_path_drops_empty_segments() {
    let rp = resolve_path("/docs//readme.md");
    assert_eq!(rp.directory_segments, vec!["docs".to_string()]);
    assert_eq!(rp.file_name, "readme.md");
}

#[test]
fn resolve_path_root_slash_defaults_to_index() {
    let rp = resolve_path("/");
    assert!(rp.directory_segments.is_empty());
    assert_eq!(rp.file_name, "index.html");
}
