//! End-to-end request pipeline: from a host header and a request path to an
//! HTTP response over a snapshot of the remote store.
//!
//! A request either completes the whole pipeline or fails outright; no
//! stage is retried.  A host that is an IP literal, or any lookup that
//! misses its target, answers `404 Not Found`; a host without a usable site
//! name answers `400 Bad Request`; success answers `200 OK` with the file's
//! bytes and the MIME type of its extension.  The response is a function of
//! the store snapshot, the host and the path alone, so identical requests
//! against an unchanged tree get byte-identical answers.

use crate::address::{last_dot, spec_service_name, spec_site_name, AddressError};
use crate::fetcher::{fetch_file, FetchError, LookupError};
use crate::resource_path::{resolve_path, spec_dir_segments, spec_file_name};
use crate::response::{
    assemble, mime_of, plain_response, spec_extension_of, spec_plain, HttpResponse, RespModel,
};
use crate::store::{spec_find_file, spec_find_service, DirectoryStore};
use crate::walker::{spec_walk_dest, spec_walk_found, spec_walk_missing, WalkError};
use vstd::prelude::*;
use vstd::string::StringExecFns;

verus! {

/// The host of an incoming request, as the transport reports it.
pub enum RequestHost {
    /// A domain-style host name.
    Domain(String),
    /// An IP literal: the gateway cannot resolve a site from it.
    IpLiteral,
}

/// The response owed to a request over a domain-style host `h`.
pub open spec fn spec_domain_response(
    store: DirectoryStore,
    h: Seq<char>,
    path: Seq<char>,
) -> RespModel {
    if h.len() == 0 {
        spec_plain(400, "no top-level label in host"@)
    } else if last_dot(h) < 0 {
        spec_plain(400, "no site name in host"@)
    } else {
        let site = spec_site_name(h);
        let service = spec_service_name(h);
        let dirs = spec_dir_segments(path);
        let file = spec_file_name(path);
        match spec_find_service(store.services@, site, service) {
            None => spec_plain(404, "service not found"@),
            Some(root) => {
                if !spec_walk_found(store.nodes@, root as int, dirs) {
                    spec_plain(
                        404,
                        "directory not found: "@ + spec_walk_missing(
                            store.nodes@,
                            root as int,
                            dirs,
                        ),
                    )
                } else {
                    let d = spec_walk_dest(store.nodes@, root as int, dirs);
                    match spec_find_file(store.nodes@[d].files@, file) {
                        None => spec_plain(404, "file not found"@),
                        Some(fi) => RespModel {
                            status: 200,
                            content_type: mime_of(spec_extension_of(file)),
                            body: store.nodes@[d].files@[fi].content@,
                        },
                    }
                }
            },
        }
    }
}

/// The response owed to a request: `spec_domain_response` for a domain
/// host, and a plain `404` for an IP literal.
pub open spec fn spec_response(
    store: DirectoryStore,
    host: RequestHost,
    path: Seq<char>,
) -> RespModel {
    match host {
        RequestHost::IpLiteral => spec_plain(404, "Can't connect with IP"@),
        RequestHost::Domain(h) => spec_domain_response(store, h@, path),
    }
}

/// Idempotence: requests with the same host and path against the same
/// store snapshot are owed the same status, byte-identical bodies and an
/// identical MIME header — the response is a function of those three
/// values alone.
pub proof fn lemma_idempotent_requests(
    store: DirectoryStore,
    host: RequestHost,
    path: Seq<char>,
    r1: RespModel,
    r2: RespModel,
)
    requires
        r1 == spec_response(store, host, path),
        r2 == spec_response(store, host, path),
    ensures
        r1.status == r2.status,
        r1.content_type == r2.content_type,
        r1.body == r2.body,
{
}

/// Serves one request against a snapshot of the remote store: parses the
/// host and the path, resolves the service root, walks the directories,
/// fetches the file and assembles the response, mapping each failure to its
/// HTTP status.
pub fn handle(store: &DirectoryStore, host: &RequestHost, path: &str) -> (r: HttpResponse)
    requires
        store.wf(),
    ensures
        r@ == spec_response(*store, *host, path@),
{
    match host {
        RequestHost::IpLiteral => plain_response(404, "Can't connect with IP".to_owned()),
        RequestHost::Domain(h) => {
            match crate::address::resolve(h.as_str()) {
                Err(AddressError::NoTopLevelLabel) => plain_response(
                    400,
                    "no top-level label in host".to_owned(),
                ),
                Err(AddressError::NoSiteName) => plain_response(
                    400,
                    "no site name in host".to_owned(),
                ),
                Ok(addr) => {
                    let rp = resolve_path(path);
                    match fetch_file(
                        store,
                        &addr.site_name,
                        &addr.service_name,
                        &rp.directory_segments,
                        &rp.file_name,
                    ) {
                        Err(LookupError::ServiceNotFound) => plain_response(
                            404,
                            "service not found".to_owned(),
                        ),
                        Err(LookupError::Walk(WalkError::SegmentNotFound(segment))) => {
                            let msg = "directory not found: ".to_owned().concat(segment.as_str());
                            plain_response(404, msg)
                        },
                        Err(LookupError::Fetch(FetchError::FileNotFound)) => plain_response(
                            404,
                            "file not found".to_owned(),
                        ),
                        Ok(bytes) => assemble(rp.file_name.as_str(), bytes),
                    }
                },
            }
        },
    }
}

} // verus!
