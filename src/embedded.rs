use vstd::prelude::*;

use crate::asset::{copy_bytes, Asset};
use crate::request_path::{directory_index, directory_index_key, trim_leading_slashes, trim_slashes};

verus! {

/// What a store holds: each key with the bytes and content type stored under it.
pub type StoreView = Map<Seq<char>, (Seq<u8>, Seq<char>)>;

/// What a store answers for a key.
pub open spec fn lookup(store: StoreView, key: Seq<char>) -> Option<(Seq<u8>, Seq<char>)> {
    if store.contains_key(key) {
        Some(store[key])
    } else {
        None
    }
}

/// The view of an asset that may be missing.
pub open spec fn asset_view(a: Option<Asset>) -> Option<(Seq<u8>, Seq<char>)> {
    match a {
        Some(x) => Some(x@),
        None => None,
    }
}

/// The table that a list of entries describes; a later entry for a key replaces an earlier one.
pub open spec fn table(entries: Seq<(String, Asset)>) -> StoreView
    decreases entries.len(),
{
    if entries.len() == 0 {
        Map::empty()
    } else {
        table(entries.drop_last()).insert(entries.last().0@, entries.last().1@)
    }
}

/// The read-only table of assets packaged with the server, built once at startup.
pub struct StaticFiles {
    files: Vec<(String, Asset)>,
}

impl View for StaticFiles {
    type V = StoreView;

    closed spec fn view(&self) -> StoreView {
        table(self.files@)
    }
}

impl StaticFiles {
    /// An empty table.
    pub fn new() -> (r: StaticFiles)
        ensures
            r@ == Map::<Seq<char>, (Seq<u8>, Seq<char>)>::empty(),
    {
        StaticFiles { files: Vec::new() }
    }

    /// Stores `asset` under `path`, replacing what was stored there.
    pub fn insert(&mut self, path: String, asset: Asset)
        ensures
            final(self)@ == old(self)@.insert(path@, asset@),
    {
        let ghost before = self.files@;
        self.files.push((path, asset));
        assert(self.files@.drop_last() =~= before);
    }

    /// The asset stored under `key`, looked up verbatim.
    pub fn fetch(&self, key: &String) -> (r: Option<Asset>)
        ensures
            asset_view(r) == lookup(self@, key@),
    {
        let mut i: usize = self.files.len();
        assert(self.files@.subrange(0, i as int) =~= self.files@);
        while i > 0
            invariant
                i <= self.files@.len(),
                lookup(self@, key@) == lookup(table(self.files@.subrange(0, i as int)), key@),
            decreases i,
        {
            let ghost prefix = self.files@.subrange(0, i as int);
            assert(prefix.drop_last() =~= self.files@.subrange(0, i - 1));
            i = i - 1;
            let entry = &self.files[i];
            if entry.0 == *key {
                return Some(
                    Asset { data: copy_bytes(&entry.1.data), content_type: entry.1.content_type.clone() },
                );
            }
        }
        None
    }
}

/// The asset for a request path: the path without its leading `/` is looked up verbatim.
pub fn get_file(files: &StaticFiles, path: &str) -> (r: Option<Asset>)
    ensures
        asset_view(r) == lookup(files@, trim_slashes(path@)),
{
    let key = trim_leading_slashes(path);
    files.fetch(&key)
}

/// The index document of the directory that a request path names; for the root, `index.html`.
pub fn get_index_html(files: &StaticFiles, path: &str) -> (r: Option<Asset>)
    ensures
        asset_view(r) == lookup(files@, directory_index_key(path@)),
{
    let key = directory_index(path);
    files.fetch(&key)
}

} // verus!
