//! The article and the records of what happened to it.

use vstd::prelude::*;

use crate::event::EventView;

verus! {

/// The largest number of bytes an encoded article may take in the snapshot
/// store.
pub const ARTICLE_MAX_SIZE: usize = 2000;

/// The current state of one article.
#[derive(Debug, PartialEq, Eq)]
pub struct Article {
    pub article_id: u128,
    pub version: u64,
    pub title: String,
    pub body: String,
}

/// What an [`Article`] holds, with its texts as sequences of characters.
pub ghost struct ArticleView {
    pub article_id: u128,
    pub version: u64,
    pub title: Seq<char>,
    pub body: Seq<char>,
}

impl View for Article {
    type V = ArticleView;

    open spec fn view(&self) -> ArticleView {
        ArticleView {
            article_id: self.article_id,
            version: self.version,
            title: self.title@,
            body: self.body@,
        }
    }
}

impl Article {
    /// What an article that may be absent holds.
    pub open spec fn view_option(article: Option<Article>) -> Option<ArticleView> {
        match article {
            Some(article) => Some(article@),
            None => None,
        }
    }
}

impl Clone for Article {
    fn clone(&self) -> (copy: Self)
        ensures
            copy@ == self@,
    {
        Article {
            article_id: self.article_id,
            version: self.version,
            title: self.title.clone(),
            body: self.body.clone(),
        }
    }
}

/// The record that an article came into being.
#[derive(Debug, PartialEq, Eq)]
pub struct ArticleCreated {
    pub article_id: u128,
    /// Carries no state: a created article always starts at version 0.
    pub version: u64,
    pub title: String,
    pub body: String,
}

impl View for ArticleCreated {
    type V = EventView;

    open spec fn view(&self) -> EventView {
        EventView::Created {
            article_id: self.article_id,
            version: self.version,
            title: self.title@,
            body: self.body@,
        }
    }
}

impl Clone for ArticleCreated {
    fn clone(&self) -> (copy: Self)
        ensures
            copy@ == self@,
    {
        ArticleCreated {
            article_id: self.article_id,
            version: self.version,
            title: self.title.clone(),
            body: self.body.clone(),
        }
    }
}

/// The record that an article's title and body were replaced.
#[derive(Debug, PartialEq, Eq)]
pub struct ArticleUpdated {
    pub article_id: u128,
    /// The version the article had before this update.
    pub version: u64,
    pub title: String,
    pub body: String,
}

impl View for ArticleUpdated {
    type V = EventView;

    open spec fn view(&self) -> EventView {
        EventView::Updated {
            article_id: self.article_id,
            version: self.version,
            title: self.title@,
            body: self.body@,
        }
    }
}

impl Clone for ArticleUpdated {
    fn clone(&self) -> (copy: Self)
        ensures
            copy@ == self@,
    {
        ArticleUpdated {
            article_id: self.article_id,
            version: self.version,
            title: self.title.clone(),
            body: self.body.clone(),
        }
    }
}

} // verus!
