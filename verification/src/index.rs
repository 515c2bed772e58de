//! An index: the list of entries (articles or images) that the site knows of,
//! kept in the order in which they were added.

use crate::remote::{cdn_url, cdn_url_text};
use crate::settings::AppConfig;
use vstd::prelude::*;

verus! {

/// The entries of an index, oldest first.
#[derive(Debug, Clone, PartialEq, Eq)]
pub struct Index<T>(pub Vec<T>);

/// The entries of a loaded index, or none where the index could not be loaded.
pub open spec fn loaded_entries<T>(loaded: Result<Index<T>, String>) -> Seq<T> {
    match loaded {
        Ok(index) => index.0@,
        Err(_) => Seq::empty(),
    }
}

/// Adding an entry to a loaded index keeps every loaded entry, in its place,
/// and puts the new entry after them; where no index could be loaded, the
/// new entry is all there is.
pub proof fn lemma_extending_keeps_entries<T>(loaded: Result<Index<T>, String>, entry: T)
    ensures
        loaded is Ok ==> loaded_entries(loaded).push(entry).len() == loaded->Ok_0.0@.len() + 1,
        loaded is Ok ==> forall|i: int|
            0 <= i < loaded->Ok_0.0@.len() ==> #[trigger] loaded_entries(loaded).push(entry)[i]
                == loaded->Ok_0.0@[i],
        loaded is Err ==> loaded_entries(loaded).push(entry).len() == 1,
        loaded_entries(loaded).push(entry).last() == entry,
{
}

impl<T> Index<T> {
    /// An index with no entry.
    pub fn new() -> (index: Index<T>)
        ensures
            index.0@ == Seq::<T>::empty(),
    {
        Index(Vec::new())
    }

    /// Adds an entry after all the others.
    pub fn push(&mut self, entry: T)
        ensures
            final(self).0@ == old(self).0@.push(entry),
    {
        self.0.push(entry);
    }

    /// The index to store once `entry` is added: the loaded index with `entry`
    /// after its entries, or, where no index could be loaded, an index that
    /// holds `entry` alone.
    pub fn extended(loaded: Result<Index<T>, String>, entry: T) -> (index: Index<T>)
        ensures
            index.0@ == loaded_entries(loaded).push(entry),
            loaded is Ok ==> index.0@.len() == loaded->Ok_0.0@.len() + 1,
            loaded is Ok ==> forall|i: int|
                0 <= i < loaded->Ok_0.0@.len() ==> #[trigger] index.0@[i] == loaded->Ok_0.0@[i],
            loaded is Err ==> index.0@.len() == 1,
            index.0@.last() == entry,
    {
        proof {
            lemma_extending_keeps_entries(loaded, entry);
        }
        match loaded {
            Ok(mut index) => {
                index.push(entry);
                index
            },
            Err(_) => {
                let mut index = Index::new();
                index.push(entry);
                index
            },
        }
    }
}

/// The address from which an index stored at `path` in the configured
/// repository is fetched, at commit `sha`, through the jsDelivr mirror.
pub fn index_url(config: &AppConfig, sha: &str, path: &str) -> (url: String)
    ensures
        url@ == cdn_url_text(config.gh_owner@, config.gh_repo@, sha@, path@),
{
    cdn_url(config.gh_owner.as_str(), config.gh_repo.as_str(), sha, path)
}

} // verus!
