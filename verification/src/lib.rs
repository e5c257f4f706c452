//! A verified core for an HTTP gateway that serves files out of a
//! hierarchical, content-addressed storage network.
//!
//! The crate covers the request-resolution pipeline: decomposing a host
//! header into a site and a service name, decomposing a request path into
//! directory segments and a file name, walking the directory tree of the
//! remote store, locating a file, and assembling an HTTP response with a
//! MIME type for the file's extension.  A bounded session pool shares the
//! expensive storage-network sessions across request workers.
//!
//! The remote store itself (sessions, name-service lookups, directory and
//! file reads) is an outside collaborator: the crate models its state as
//! plain data (`store::DirectoryStore`) and verifies every decision the
//! gateway takes over that model.  An unverified driver performs the actual
//! network calls and feeds their results back into these functions.

pub mod address;
pub mod resource_path;
pub mod store;
pub mod walker;
pub mod fetcher;
pub mod pool;
pub mod pipeline;
pub mod response;
