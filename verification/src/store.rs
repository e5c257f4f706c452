//! The gateway's model of the remote store: directory nodes, file entries
//! and the name-service table, held as plain data.
//!
//! The remote network owns and mutates this state; the gateway only reads
//! it.  A directory reference is modelled as the index (`key`) of a node in
//! `DirectoryStore::nodes`, and the lookups the gateway performs — a
//! sub-directory by name, a file by name, a service root by site and
//! service name — are exact, case-sensitive, first-match searches.

use vstd::prelude::*;

verus! {

/// A sub-directory child of a directory node: its name and the key that
/// locates the child in the store.
pub struct SubDirEntry {
    pub name: String,
    pub key: usize,
}

/// A file child of a directory node: its name and its full content.
pub struct FileEntry {
    pub name: String,
    pub content: Vec<u8>,
}

/// One directory of the remote tree, with its sub-directory children and
/// its file children in insertion order.
pub struct DirectoryNode {
    pub name: String,
    pub sub_directories: Vec<SubDirEntry>,
    pub files: Vec<FileEntry>,
}

/// One entry of the name service: a site and service name mapped to the key
/// of the service's root directory.
pub struct ServiceEntry {
    pub site_name: String,
    pub service_name: String,
    pub root_key: usize,
}

/// A snapshot of the remote store: all reachable directory nodes, the name
/// service's entries, and the caller's default root directory.
pub struct DirectoryStore {
    pub nodes: Vec<DirectoryNode>,
    pub services: Vec<ServiceEntry>,
    pub user_root: usize,
}

impl DirectoryStore {
    /// Every directory reference held anywhere in the store names a node of
    /// the store.
    pub open spec fn wf(self) -> bool {
        &&& self.user_root < self.nodes@.len()
        &&& forall|i: int, j: int|
            0 <= i < self.nodes@.len() && 0 <= j < self.nodes@[i].sub_directories@.len()
                ==> (#[trigger] self.nodes@[i].sub_directories@[j]).key < self.nodes@.len()
        &&& forall|i: int|
            0 <= i < self.services@.len() ==> (#[trigger] self.services@[i]).root_key
                < self.nodes@.len()
    }
}

/// Key of the first sub-directory entry named `name`, if any.
pub open spec fn spec_find_sub_dir(entries: Seq<SubDirEntry>, name: Seq<char>) -> Option<usize>
    decreases entries.len(),
{
    if entries.len() == 0 {
        None
    } else if entries[0].name@ == name {
        Some(entries[0].key)
    } else {
        spec_find_sub_dir(entries.drop_first(), name)
    }
}

/// Index of the first file entry named `name`, if any.
pub open spec fn spec_find_file(files: Seq<FileEntry>, name: Seq<char>) -> Option<int>
    decreases files.len(),
{
    if files.len() == 0 {
        None
    } else if files[0].name@ == name {
        Some(0)
    } else {
        match spec_find_file(files.drop_first(), name) {
            Some(i) => Some(i + 1),
            None => None,
        }
    }
}

/// Root key of the first service entry for `site` and `service`, if any.
pub open spec fn spec_find_service(
    services: Seq<ServiceEntry>,
    site: Seq<char>,
    service: Seq<char>,
) -> Option<usize>
    decreases services.len(),
{
    if services.len() == 0 {
        None
    } else if services[0].site_name@ == site && services[0].service_name@ == service {
        Some(services[0].root_key)
    } else {
        spec_find_service(services.drop_first(), site, service)
    }
}

/// A found sub-directory key is the key of one of the entries.
pub proof fn lemma_find_sub_dir_key(entries: Seq<SubDirEntry>, name: Seq<char>)
    ensures
        spec_find_sub_dir(entries, name) matches Some(k) ==> exists|j: int|
            0 <= j < entries.len() && (#[trigger] entries[j]).key == k,
    decreases entries.len(),
{
    if entries.len() > 0 && entries[0].name@ != name {
        lemma_find_sub_dir_key(entries.drop_first(), name);
        if spec_find_sub_dir(entries.drop_first(), name) is Some {
            let k = spec_find_sub_dir(entries.drop_first(), name)->0;
            let j = choose|j: int|
                0 <= j < entries.drop_first().len() && (#[trigger] entries.drop_first()[j]).key
                    == k;
            assert(entries[j + 1].key == k);
        }
    }
}

/// A found service root is the root key of one of the entries.
pub proof fn lemma_find_service_key(services: Seq<ServiceEntry>, site: Seq<char>, service: Seq<char>)
    ensures
        spec_find_service(services, site, service) matches Some(k) ==> exists|j: int|
            0 <= j < services.len() && (#[trigger] services[j]).root_key == k,
    decreases services.len(),
{
    if services.len() > 0 && !(services[0].site_name@ == site && services[0].service_name@
        == service) {
        lemma_find_service_key(services.drop_first(), site, service);
        if spec_find_service(services.drop_first(), site, service) is Some {
            let k = spec_find_service(services.drop_first(), site, service)->0;
            let j = choose|j: int|
                0 <= j < services.drop_first().len() && (#[trigger] services.drop_first()[j]).root_key
                    == k;
            assert(services[j + 1].root_key == k);
        }
    }
}

/// Searches a directory's sub-directory children for an exact name match
/// and returns the matching child's key.
pub fn find_sub_directory(node: &DirectoryNode, name: &String) -> (r: Option<usize>)
    ensures
        r == spec_find_sub_dir(node.sub_directories@, name@),
{
    let ghost entries = node.sub_directories@;
    proof {
        assert(entries.skip(0) =~= entries);
    }
    let mut i: usize = 0;
    while i < node.sub_directories.len()
        invariant
            i <= entries.len(),
            entries == node.sub_directories@,
            spec_find_sub_dir(entries, name@) == spec_find_sub_dir(entries.skip(i as int), name@),
        decreases entries.len() - i,
    {
        proof {
            assert(entries.skip(i as int)[0] == entries[i as int]);
            assert(entries.skip(i as int).drop_first() =~= entries.skip(i + 1));
        }
        if node.sub_directories[i].name == *name {
            return Some(node.sub_directories[i].key);
        }
        i = i + 1;
    }
    proof {
        assert(entries.skip(entries.len() as int).len() == 0);
    }
    None
}

/// Searches a directory's file children for an exact name match and returns
/// the matching entry's position.
pub fn find_file(node: &DirectoryNode, name: &String) -> (r: Option<usize>)
    ensures
        ({
            let f = spec_find_file(node.files@, name@);
            &&& (r is Some <==> f is Some)
            &&& (r is Some ==> r->0 == f->0 && r->0 < node.files@.len())
        }),
{
    let ghost files = node.files@;
    proof {
        assert(files.skip(0) =~= files);
    }
    let mut i: usize = 0;
    while i < node.files.len()
        invariant
            i <= files.len(),
            files == node.files@,
            ({
                let whole = spec_find_file(files, name@);
                let rest = spec_find_file(files.skip(i as int), name@);
                &&& (whole is Some <==> rest is Some)
                &&& (rest is Some ==> whole->0 == rest->0 + i)
            }),
        decreases files.len() - i,
    {
        proof {
            assert(files.skip(i as int)[0] == files[i as int]);
            assert(files.skip(i as int).drop_first() =~= files.skip(i + 1));
        }
        if node.files[i].name == *name {
            return Some(i);
        }
        i = i + 1;
    }
    proof {
        assert(files.skip(files.len() as int).len() == 0);
    }
    None
}

/// Searches the name service's entries for an exact site and service match
/// and returns the service root's key.
pub fn find_service(services: &Vec<ServiceEntry>, site: &String, service: &String) -> (r: Option<
    usize,
>)
    ensures
        r == spec_find_service(services@, site@, service@),
{
    let ghost entries = services@;
    proof {
        assert(entries.skip(0) =~= entries);
    }
    let mut i: usize = 0;
    while i < services.len()
        invariant
            i <= entries.len(),
            entries == services@,
            spec_find_service(entries, site@, service@) == spec_find_service(
                entries.skip(i as int),
                site@,
                service@,
            ),
        decreases entries.len() - i,
    {
        proof {
            assert(entries.skip(i as int)[0] == entries[i as int]);
            assert(entries.skip(i as int).drop_first() =~= entries.skip(i + 1));
        }
        if services[i].site_name == *site && services[i].service_name == *service {
            return Some(services[i].root_key);
        }
        i = i + 1;
    }
    proof {
        assert(entries.skip(entries.len() as int).len() == 0);
    }
    None
}

} // verus!
