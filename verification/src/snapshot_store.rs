//! The snapshot store: the current article under each id.

use vstd::prelude::*;

use crate::article::{Article, ArticleView, ARTICLE_MAX_SIZE};
use crate::encoding::{article_size, parse_article};
use crate::error::ArticleError;
use crate::stable_memory::{snapshot_entries, SnapshotRegion, StableMemory};

verus! {

/// The current state of every article, by id. There is at most one article
/// under an id, and no history.
pub struct SnapshotStore {
    region: SnapshotRegion,
}

impl View for SnapshotStore {
    type V = Map<u128, ArticleView>;

    /// The stored articles by id. An entry whose bytes encode no article
    /// counts as absent; this library writes no such entry.
    closed spec fn view(&self) -> Map<u128, ArticleView> {
        Self::decoded(snapshot_entries(self.region))
    }
}

impl SnapshotStore {
    /// The articles that the entries of a snapshot region encode, by id. An
    /// entry that encodes no article counts as absent.
    pub open spec fn decoded(entries: Map<u128, Seq<u8>>) -> Map<u128, ArticleView> {
        Map::new(
            |id: u128| entries.contains_key(id) && parse_article(entries[id]) is Some,
            |id: u128| parse_article(entries[id]).unwrap(),
        )
    }

    /// The store over a region that was opened: it holds the articles that
    /// the region's entries encode.
    pub(crate) fn over(region: SnapshotRegion) -> (store: SnapshotStore)
        ensures
            store@ == Self::decoded(snapshot_entries(region)),
    {
        SnapshotStore { region }
    }

    /// Takes up the store in a region of `memory`. Which articles the store
    /// holds rests with what the memory holds.
    pub(crate) fn open(memory: &StableMemory, id: u8) -> (opened: SnapshotStore)
        requires
            id < 255,
    {
        Self::over(SnapshotRegion::open(memory, id))
    }

    /// The article stored under `id`, if there is one.
    pub fn get(&self, id: u128) -> (found: Option<Article>)
        ensures
            match found {
                Some(article) => self@.contains_key(id) && self@[id] == article@,
                None => !self@.contains_key(id),
            },
    {
        match self.region.get(id) {
            Some(bytes) => Article::from_bytes(bytes.as_slice()),
            None => None,
        }
    }

    /// Stores `article` under `id`, in place of any article stored there.
    /// Fails with `SizeExceeded` exactly when the encoded article is longer
    /// than `ARTICLE_MAX_SIZE`; the store is then as it was.
    pub fn put(&mut self, id: u128, article: &Article) -> (outcome: Result<(), ArticleError>)
        ensures
            match outcome {
                Ok(_) => article_size(article@) <= ARTICLE_MAX_SIZE && final(self)@ == old(
                    self,
                )@.insert(id, article@),
                Err(error) => error == ArticleError::SizeExceeded && article_size(article@)
                    > ARTICLE_MAX_SIZE && final(self)@ == old(self)@,
            },
    {
        let bytes = article.to_bytes();
        if bytes.len() > ARTICLE_MAX_SIZE {
            return Err(ArticleError::SizeExceeded);
        }
        self.region.insert(id, &bytes);
        Ok(())
    }

    /// Removes the article stored under `id`, if there is one.
    pub fn delete(&mut self, id: u128)
        ensures
            final(self)@ == old(self)@.remove(id),
    {
        self.region.remove(id);
    }
}

} // verus!
