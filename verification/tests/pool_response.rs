use safe_gateway::pool::SessionPool;
use safe_gateway::response::{assemble, extension_of};

#[test]
fn pool_starts_empty() {
    let pool: SessionPool<u64> = SessionPool::new(10);
    assert!(!pool.has_session(0));
    assert!(pool.acquire(7).is_none());
}

#[test]
fn pool_same_residue_shares_one_session() {
    let mut pool: SessionPool<u64> = SessionPool::new(10);
    pool.install(3, 42);
    assert!(pool.has_session(3));
    assert!(pool.has_session(13));
    assert_eq!(pool.acquire(3), Some(&42));
    assert_eq!(pool.acquire(13), Some(&42));
    assert_eq!(pool.acquire(23), Some(&42));
    assert!(pool.acquire(4).is_none());
}

#[test]
fn pool_slot_is_residue_of_caller_id() {
    let pool: SessionPool<u64> = SessionPool::new(10);
    assert_eq!(pool.slot_for(0), 0);
    assert_eq!(pool.slot_for(27), 7);
    assert_eq!(pool.slot_for(10), 0);
}

#[test]
fn pool_warm_up_fills_every_slot() {
    let mut pool: SessionPool<u64> = SessionPool::new(4);
    pool.warm_up(vec![100, 101, 102, 103]);
    for id in 0..12usize {
        assert_eq!(pool.acquire(id), Some(&(100 + (id as u64) % 4)));
    }
}

#[test]
fn extension_is_suffix_after_last_dot() {
    assert_eq!(extension_of("readme.md"), "md");
    assert_eq!(extension_of("a.tar.gz"), "gz");
}

#[test]
fn extension_defaults_to_html() {
    assert_eq!(extension_of("Makefile"), "html");
}

#[test]
fn assemble_resolves_markdown_mime() {
    let r = assemble("readme.md", b"# hello".to_vec());
    assert_eq!(r.status, 200);
    assert_eq!(r.content_type, "text/markdown");
    assert_eq!(r.body, b"# hello".to_vec());
}

#[test]
fn assemble_defaults_unknown_extension_to_octet_stream() {
    let r = assemble("data.zzzzz", vec![1, 2, 3]);
    assert_eq!(r.status, 200);
    assert_eq!(r.content_type, "application/octet-stream");
    assert_eq!(r.body, vec![1, 2, 3]);
}

#[test]
fn assemble_without_extension_uses_html() {
    let r = assemble("README", b"hi".to_vec());
    assert_eq!(r.content_type, "text/html");
}
