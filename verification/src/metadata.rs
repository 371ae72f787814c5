//! Plain-value snapshots of what the storage backend reports about a path.

use vstd::prelude::*;

verus! {

/// What a backend `stat` reports about one path: immutable per-path facts
/// the negotiator and resolver read. `last_modified` is epoch seconds.
#[derive(Clone)]
pub struct StorageMetadata {
    pub is_dir: bool,
    pub size: u64,
    pub content_type: Option<String>,
    pub etag: Option<String>,
    pub last_modified: Option<i64>,
    pub cache_control: Option<String>,
    pub content_encoding: Option<String>,
}

/// The mathematical shape of backend metadata.
pub ghost struct MetaV {
    pub is_dir: bool,
    pub size: u64,
    pub content_type: Option<Seq<char>>,
    pub etag: Option<Seq<char>>,
    pub last_modified: Option<i64>,
    pub cache_control: Option<Seq<char>>,
    pub content_encoding: Option<Seq<char>>,
}

pub open spec fn opt_str_view(o: Option<String>) -> Option<Seq<char>> {
    match o {
        Some(s) => Some(s@),
        None => None,
    }
}

impl View for StorageMetadata {
    type V = MetaV;

    open spec fn view(&self) -> MetaV {
        MetaV {
            is_dir: self.is_dir,
            size: self.size,
            content_type: opt_str_view(self.content_type),
            etag: opt_str_view(self.etag),
            last_modified: self.last_modified,
            cache_control: opt_str_view(self.cache_control),
            content_encoding: opt_str_view(self.content_encoding),
        }
    }
}

/// One element of a directory listing.
#[derive(Clone)]
pub struct StorageEntry {
    pub name: String,
    pub path: String,
    pub metadata: StorageMetadata,
}

/// The mathematical shape of a listing element.
pub ghost struct EntryV {
    pub name: Seq<char>,
    pub path: Seq<char>,
    pub metadata: MetaV,
}

impl View for StorageEntry {
    type V = EntryV;

    open spec fn view(&self) -> EntryV {
        EntryV { name: self.name@, path: self.path@, metadata: self.metadata@ }
    }
}

/// The view of a listing.
pub open spec fn entries_view(entries: Seq<StorageEntry>) -> Seq<EntryV> {
    entries.map_values(|e: StorageEntry| e@)
}

} // verus!
