//! Directory walker: descends the remote directory tree one path segment at
//! a time.
//!
//! Starting from a given directory (or the caller's root when none is
//! given), each segment is matched exactly against the current directory's
//! sub-directory children; the first segment without a match aborts the
//! walk.  An empty segment sequence returns the start directory unchanged.

use crate::store::{spec_find_sub_dir, DirectoryNode, DirectoryStore};
use vstd::prelude::*;

verus! {

/// Failure of a directory walk.
#[derive(Debug)]
pub enum WalkError {
    /// The named path segment has no matching sub-directory.
    SegmentNotFound(String),
}

/// Whether every segment of `segments` resolves to a sub-directory when
/// walking from node `cur`.
pub open spec fn spec_walk_found(
    nodes: Seq<DirectoryNode>,
    cur: int,
    segments: Seq<Seq<char>>,
) -> bool
    decreases segments.len(),
{
    if segments.len() == 0 {
        true
    } else {
        match spec_find_sub_dir(nodes[cur].sub_directories@, segments[0]) {
            None => false,
            Some(k) => spec_walk_found(nodes, k as int, segments.drop_first()),
        }
    }
}

/// The node a full walk from `cur` along `segments` ends at.
pub open spec fn spec_walk_dest(nodes: Seq<DirectoryNode>, cur: int, segments: Seq<Seq<char>>) -> int
    decreases segments.len(),
{
    if segments.len() == 0 {
        cur
    } else {
        match spec_find_sub_dir(nodes[cur].sub_directories@, segments[0]) {
            None => cur,
            Some(k) => spec_walk_dest(nodes, k as int, segments.drop_first()),
        }
    }
}

/// The first segment of a failing walk that has no matching sub-directory.
pub open spec fn spec_walk_missing(
    nodes: Seq<DirectoryNode>,
    cur: int,
    segments: Seq<Seq<char>>,
) -> Seq<char>
    decreases segments.len(),
{
    if segments.len() == 0 {
        Seq::empty()
    } else {
        match spec_find_sub_dir(nodes[cur].sub_directories@, segments[0]) {
            None => segments[0],
            Some(k) => spec_walk_missing(nodes, k as int, segments.drop_first()),
        }
    }
}

/// The start of a walk: the given directory, or the caller's root when none
/// is given.
pub open spec fn spec_walk_start(store: DirectoryStore, starting_directory: Option<usize>) -> int {
    match starting_directory {
        Some(k) => k as int,
        None => store.user_root as int,
    }
}

/// Walks the directory tree from `starting_directory` (the caller's root
/// when `None`) along `tokens`, matching each segment exactly against the
/// sub-directory children, and returns the key of the final directory, or
/// the first segment that has no match.
pub fn get_final_subdirectory(
    store: &DirectoryStore,
    tokens: &Vec<String>,
    starting_directory: Option<usize>,
) -> (r: Result<usize, WalkError>)
    requires
        store.wf(),
        starting_directory matches Some(k) ==> k < store.nodes@.len(),
    ensures
        ({
            let start = spec_walk_start(*store, starting_directory);
            let segments = tokens.deep_view();
            &&& (r is Ok <==> spec_walk_found(store.nodes@, start, segments))
            &&& (r is Ok ==> r->Ok_0 == spec_walk_dest(store.nodes@, start, segments)
                && r->Ok_0 < store.nodes@.len())
            &&& (r matches Err(e) ==> e matches WalkError::SegmentNotFound(s) && s@
                == spec_walk_missing(store.nodes@, start, segments))
        }),
{
    let ghost segments = tokens.deep_view();
    let mut current: usize = match starting_directory {
        Some(k) => k,
        None => store.user_root,
    };
    let ghost start = current as int;
    proof {
        assert(segments.skip(0) =~= segments);
    }
    let mut i: usize = 0;
    while i < tokens.len()
        invariant
            store.wf(),
            i <= tokens.len(),
            segments == tokens.deep_view(),
            start == spec_walk_start(*store, starting_directory),
            current < store.nodes@.len(),
            spec_walk_found(store.nodes@, start, segments) == spec_walk_found(
                store.nodes@,
                current as int,
                segments.skip(i as int),
            ),
            spec_walk_dest(store.nodes@, start, segments) == spec_walk_dest(
                store.nodes@,
                current as int,
                segments.skip(i as int),
            ),
            spec_walk_missing(store.nodes@, start, segments) == spec_walk_missing(
                store.nodes@,
                current as int,
                segments.skip(i as int),
            ),
        decreases tokens.len() - i,
    {
        proof {
            assert(segments.skip(i as int)[0] == segments[i as int]);
            assert(segments[i as int] == tokens@[i as int]@);
            assert(segments.skip(i as int).drop_first() =~= segments.skip(i + 1));
        }
        let node: &DirectoryNode = &store.nodes[current];
        proof {
            crate::store::lemma_find_sub_dir_key(node.sub_directories@, tokens@[i as int]@);
        }
        match crate::store::find_sub_directory(node, &tokens[i]) {
            None => {
                return Err(WalkError::SegmentNotFound(tokens[i].clone()));
            },
            Some(key) => {
                current = key;
            },
        }
        i = i + 1;
    }
    proof {
        assert(segments.skip(tokens.len() as int).len() == 0);
    }
    Ok(current)
}

} // verus!
