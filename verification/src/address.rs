//! Address resolver: decomposes an HTTP host header into a site name and a
//! service name.
//!
//! The host is read as dot-separated labels, right to left: the right-most
//! label is discarded as a top-level label, the next label is the site name,
//! and the remaining labels (kept in their original left-to-right order) form
//! the service name, defaulting to `"www"` when none remain.

use vstd::prelude::*;
use vstd::string::StrSliceExecFns;

verus! {

/// Failure to read a site address out of a host header.
#[derive(Clone, Copy, Debug, PartialEq, Eq, Structural)]
pub enum AddressError {
    /// The host was empty: not even a top-level label is present.
    NoTopLevelLabel,
    /// The host holds exactly one label, so no site name remains after the
    /// top-level label is discarded.
    NoSiteName,
}

/// The site and service identifiers resolved from a host header.
pub struct SiteAddress {
    pub site_name: String,
    pub service_name: String,
}

/// Index of the right-most `'.'` in `s`, or `-1` if `s` holds none.
pub open spec fn last_dot(s: Seq<char>) -> int
    decreases s.len(),
{
    if s.len() == 0 {
        -1
    } else if s.last() == '.' {
        s.len() - 1
    } else {
        last_dot(s.drop_last())
    }
}

/// `last_dot` names the greatest index carrying a `'.'`, and `-1` exactly
/// when there is no dot at all.
pub proof fn lemma_last_dot(s: Seq<char>)
    ensures
        last_dot(s) >= -1,
        last_dot(s) == -1 ==> forall|j: int| 0 <= j < s.len() ==> s[j] != '.',
        last_dot(s) >= 0 ==> {
            &&& last_dot(s) < s.len()
            &&& s[last_dot(s)] == '.'
            &&& forall|j: int| last_dot(s) < j < s.len() ==> s[j] != '.'
        },
    decreases s.len(),
{
    if s.len() > 0 && s.last() != '.' {
        lemma_last_dot(s.drop_last());
        assert(forall|j: int| 0 <= j < s.len() - 1 ==> s[j] == s.drop_last()[j]);
    }
}

/// The site name of a host that holds at least one dot: the label between
/// the second-to-last dot (or the start) and the last dot.
pub open spec fn spec_site_name(h: Seq<char>) -> Seq<char>
    recommends
        last_dot(h) >= 0,
{
    let ld = last_dot(h);
    h.subrange(last_dot(h.take(ld)) + 1, ld)
}

/// The service name of a host that holds at least one dot: everything before
/// the second-to-last dot, in original order, or `"www"` when the host has
/// only two labels.
pub open spec fn spec_service_name(h: Seq<char>) -> Seq<char>
    recommends
        last_dot(h) >= 0,
{
    let sd = last_dot(h.take(last_dot(h)));
    if sd >= 0 {
        h.take(sd)
    } else {
        "www"@
    }
}

/// Index of the right-most `'.'` strictly before `end`, if any.
pub(crate) fn rfind_dot(s: &str, end: usize) -> (r: Option<usize>)
    requires
        end <= s@.len(),
    ensures
        ({
            let ld = last_dot(s@.take(end as int));
            &&& (r is Some <==> ld >= 0)
            &&& (r is Some ==> r->0 == ld)
        }),
{
    let mut i: usize = end;
    while i > 0
        invariant
            i <= end,
            end <= s@.len(),
            forall|j: int| i <= j < end ==> s@[j] != '.',
        decreases i,
    {
        i = i - 1;
        if s.get_char(i) == '.' {
            proof {
                let t = s@.take(end as int);
                lemma_last_dot(t);
                assert(t.len() == end as int);
                assert(t[i as int] == s@[i as int]);
                assert(t[i as int] == '.');
                assert forall|j: int| i < j < end implies t[j] != '.' by {
                    assert(t[j] == s@[j]);
                }
                let ld = last_dot(t);
                assert(ld != -1);
                if ld < i {
                    assert(t[i as int] != '.');
                    assert(false);
                }
                if ld > i {
                    assert(t[ld] != '.');
                    assert(false);
                }
                assert(last_dot(t) == i);
            }
            return Some(i);
        }
    }
    proof {
        let t = s@.take(end as int);
        lemma_last_dot(t);
        if last_dot(t) >= 0 {
            assert(t[last_dot(t)] == s@[last_dot(t)]);
        }
    }
    None
}

/// Splits a domain-style host into its site and service names.
///
/// The empty host is rejected with `NoTopLevelLabel`; a host without any dot
/// has only a top-level label and is rejected with `NoSiteName`.  Otherwise
/// the site name is the second label from the right and the service name is
/// the remaining prefix, or `"www"` when that prefix is empty.
pub fn resolve(host: &str) -> (r: Result<SiteAddress, AddressError>)
    ensures
        host@.len() == 0 ==> r == Err::<SiteAddress, AddressError>(AddressError::NoTopLevelLabel),
        host@.len() > 0 && last_dot(host@) < 0 ==> r == Err::<SiteAddress, AddressError>(
            AddressError::NoSiteName,
        ),
        last_dot(host@) >= 0 ==> {
            &&& r is Ok
            &&& r->Ok_0.site_name@ == spec_site_name(host@)
            &&& r->Ok_0.service_name@ == spec_service_name(host@)
        },
{
    let n = host.unicode_len();
    if n == 0 {
        return Err(AddressError::NoTopLevelLabel);
    }
    proof {
        assert(host@.take(n as int) =~= host@);
    }
    match rfind_dot(host, n) {
        None => Err(AddressError::NoSiteName),
        Some(ld) => {
            proof {
                lemma_last_dot(host@);
                lemma_last_dot(host@.take(ld as int));
            }
            match rfind_dot(host, ld) {
                None => {
                    let site = host.substring_char(0, ld).to_owned();
                    let service = "www".to_owned();
                    Ok(SiteAddress { site_name: site, service_name: service })
                },
                Some(sd) => {
                    let site = host.substring_char(sd + 1, ld).to_owned();
                    let service = host.substring_char(0, sd).to_owned();
                    Ok(SiteAddress { site_name: site, service_name: service })
                },
            }
        },
    }
}

} // verus!
