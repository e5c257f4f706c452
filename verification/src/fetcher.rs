//! File fetcher: resolves a service root through the name service, walks
//! the directory tree, locates a file by exact name and reads its full
//! content.
//!
//! The whole file is materialized before responding; partial reads are not
//! exposed.

use crate::store::{spec_find_file, spec_find_service, DirectoryStore};
use crate::walker::{
    get_final_subdirectory, spec_walk_dest, spec_walk_found, spec_walk_missing, WalkError,
};
use vstd::prelude::*;

verus! {

/// Failure to locate a file within a resolved directory.
#[derive(Debug)]
pub enum FetchError {
    /// No file child of the directory carries the requested name.
    FileNotFound,
}

/// Failure of the whole lookup pipeline below address and path parsing.
#[derive(Debug)]
pub enum LookupError {
    /// The name service has no entry for the site and service pair.
    ServiceNotFound,
    /// A path segment did not resolve to a sub-directory.
    Walk(WalkError),
    /// The final directory has no file of the requested name.
    Fetch(FetchError),
}

/// Copies a byte vector.
fn clone_bytes(v: &Vec<u8>) -> (r: Vec<u8>)
    ensures
        r@ == v@,
{
    let mut out: Vec<u8> = Vec::new();
    let mut i: usize = 0;
    while i < v.len()
        invariant
            i <= v@.len(),
            out@ =~= v@.take(i as int),
        decreases v@.len() - i,
    {
        out.push(v[i]);
        i = i + 1;
    }
    proof {
        assert(v@.take(v@.len() as int) =~= v@);
    }
    out
}

/// Resolves the root directory of `service_name` under the site `long_name`
/// through the name service, walks `path` from that root, and reads the
/// full content of the file named `file_name` in the final directory.
pub fn fetch_file(
    store: &DirectoryStore,
    long_name: &String,
    service_name: &String,
    path: &Vec<String>,
    file_name: &String,
) -> (r: Result<Vec<u8>, LookupError>)
    requires
        store.wf(),
    ensures
        ({
            let root = spec_find_service(store.services@, long_name@, service_name@);
            let segments = path.deep_view();
            &&& (root is None ==> r == Err::<Vec<u8>, LookupError>(LookupError::ServiceNotFound))
            &&& (root matches Some(rk) ==> {
                let start = rk as int;
                &&& (!spec_walk_found(store.nodes@, start, segments) ==> (r matches Err(e)
                    && (e matches LookupError::Walk(w) && (w
                    matches WalkError::SegmentNotFound(s) && s@ == spec_walk_missing(
                        store.nodes@,
                        start,
                        segments,
                    )))))
                &&& (spec_walk_found(store.nodes@, start, segments) ==> {
                    let d = spec_walk_dest(store.nodes@, start, segments);
                    let f = spec_find_file(store.nodes@[d].files@, file_name@);
                    &&& (f is None ==> r == Err::<Vec<u8>, LookupError>(
                        LookupError::Fetch(FetchError::FileNotFound),
                    ))
                    &&& (f matches Some(fi) ==> (r matches Ok(bytes) && bytes@
                        == store.nodes@[d].files@[fi].content@))
                })
            })
        }),
{
    let root = match crate::store::find_service(&store.services, long_name, service_name) {
        None => {
            return Err(LookupError::ServiceNotFound);
        },
        Some(k) => k,
    };
    proof {
        crate::store::lemma_find_service_key(store.services@, long_name@, service_name@);
    }
    let directory = match get_final_subdirectory(store, path, Some(root)) {
        Err(e) => {
            return Err(LookupError::Walk(e));
        },
        Ok(d) => d,
    };
    let node = &store.nodes[directory];
    let index = match crate::store::find_file(node, file_name) {
        None => {
            return Err(LookupError::Fetch(FetchError::FileNotFound));
        },
        Some(ix) => ix,
    };
    Ok(clone_bytes(&node.files[index].content))
}

} // verus!
