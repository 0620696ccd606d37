//! Creating an article: from the request to the event, and from the event to
//! the article.

use vstd::prelude::*;

use crate::article::{Article, ArticleCreated, ArticleView};
use crate::event::EventView;

verus! {

/// The version written into a creation event. It stands for "none": the
/// article that the event creates starts at version 0.
pub const CREATED_VERSION: u64 = u64::MAX;

/// Turns a request to create an article into the event that records it.
///
/// Nothing is looked up: whether an article with this id exists already does
/// not matter here.
pub fn verify(article_id: u128, title: String, body: String) -> (created: ArticleCreated)
    ensures
        created@ == (EventView::Created {
            article_id,
            version: CREATED_VERSION,
            title: title@,
            body: body@,
        }),
{
    ArticleCreated { article_id, version: CREATED_VERSION, title, body }
}

/// The article that a creation event gives: the event's id, title and body,
/// at version 0.
pub fn mutate(article_created: &ArticleCreated) -> (article: Article)
    ensures
        article@ == (ArticleView {
            article_id: article_created.article_id,
            version: 0,
            title: article_created.title@,
            body: article_created.body@,
        }),
        article@ == article_created@.apply(None),
{
    Article {
        article_id: article_created.article_id,
        version: 0,
        title: article_created.title.clone(),
        body: article_created.body.clone(),
    }
}

} // verus!
