//! Path resolver: decomposes a URL path into directory segments and a file
//! name.
//!
//! The path is split on `'/'` and empty segments are dropped.  The last
//! segment names the file; when the path is empty or ends in a separator,
//! the file name defaults to `"index.html"`.  All preceding segments, in
//! their original order, are the directory segments to walk, top down.

use vstd::prelude::*;
use vstd::string::StrSliceExecFns;

verus! {

/// A parsed request path: the directories to walk, in order, and the name
/// of the file to fetch in the final directory.
pub struct ResourcePath {
    pub directory_segments: Vec<String>,
    pub file_name: String,
}

/// The non-empty segments of `p`, split on `'/'`, in order.
pub open spec fn segs(p: Seq<char>) -> Seq<Seq<char>>
    decreases p.len(),
{
    if p.len() == 0 {
        Seq::empty()
    } else if p.last() == '/' {
        segs(p.drop_last())
    } else if p.len() == 1 || p[p.len() - 2] == '/' {
        segs(p.drop_last()).push(seq![p.last()])
    } else {
        let r = segs(p.drop_last());
        r.update(r.len() - 1, r.last().push(p.last()))
    }
}

/// The directory segments of a path: every non-empty segment but the final
/// file name, kept in order.
pub open spec fn spec_dir_segments(p: Seq<char>) -> Seq<Seq<char>> {
    if p.len() == 0 || p.last() == '/' {
        segs(p)
    } else {
        segs(p).drop_last()
    }
}

/// The file name of a path: its last non-empty segment, or `"index.html"`
/// when the path is empty or ends in a separator.
pub open spec fn spec_file_name(p: Seq<char>) -> Seq<char> {
    if p.len() == 0 || p.last() == '/' {
        "index.html"@
    } else {
        segs(p).last()
    }
}

/// Splits a request path into directory segments and a file name.
pub fn resolve_path(path: &str) -> (r: ResourcePath)
    ensures
        r.directory_segments.deep_view() == spec_dir_segments(path@),
        r.file_name@ == spec_file_name(path@),
{
    let n = path.unicode_len();
    let mut segments: Vec<String> = Vec::new();
    let mut start: usize = 0;
    let mut i: usize = 0;
    while i < n
        invariant
            i <= n,
            start <= i,
            n == path@.len(),
            forall|k: int| start <= k < i ==> path@[k] != '/',
            start == i ==> segs(path@.take(i as int)) == segments.deep_view() && (i == 0
                || path@[i - 1] == '/'),
            start < i ==> segs(path@.take(i as int)) == segments.deep_view().push(
                path@.subrange(start as int, i as int),
            ),
        decreases n - i,
    {
        let ghost pre = path@.take(i as int);
        let ghost post = path@.take(i + 1 as int);
        let ghost dv = segments.deep_view();
        proof {
            assert(post.drop_last() =~= pre);
            assert(post.last() == path@[i as int]);
        }
        if path.get_char(i) == '/' {
            if start < i {
                segments.push(path.substring_char(start, i).to_owned());
                proof {
                    assert(segments.deep_view() =~= dv.push(
                        path@.subrange(start as int, i as int),
                    ));
                    assert(segs(post) == segs(pre));
                }
            }
            start = i + 1;
        } else {
            proof {
                if start == i {
                    assert(post.len() == 1 || post[post.len() - 2] == '/');
                    assert(seq![post.last()] =~= path@.subrange(i as int, i + 1));
                    assert(segs(post) == segs(pre).push(path@.subrange(i as int, i + 1)));
                } else {
                    let partial = path@.subrange(start as int, i as int);
                    assert(post[post.len() - 2] == path@[i - 1]);
                    assert(segs(pre) == dv.push(partial));
                    assert(segs(pre).last() == partial);
                    assert(segs(pre).update(segs(pre).len() - 1, partial.push(path@[i as int]))
                        =~= dv.push(partial.push(path@[i as int])));
                    assert(partial.push(path@[i as int]) =~= path@.subrange(
                        start as int,
                        i + 1,
                    ));
                    assert(segs(post) == dv.push(path@.subrange(start as int, i + 1)));
                }
            }
        }
        i = i + 1;
    }
    proof {
        assert(path@.take(n as int) =~= path@);
    }
    if start < n {
        let file_name = path.substring_char(start, n).to_owned();
        proof {
            assert(path@.last() != '/');
            assert(spec_dir_segments(path@) =~= segments.deep_view());
        }
        ResourcePath { directory_segments: segments, file_name }
    } else {
        let file_name = "index.html".to_owned();
        ResourcePath { directory_segments: segments, file_name }
    }
}

} // verus!
