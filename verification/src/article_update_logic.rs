//! Updating an article: from the request to the event, and from the event to
//! the article.

use vstd::prelude::*;

use crate::article::{Article, ArticleUpdated, ArticleView};
use crate::error::ArticleError;
use crate::event::EventView;

verus! {

/// Turns a request to replace an article's title and body into the event that
/// records it. The event carries the id and the version of the article as it
/// is now, before the update.
///
/// Fails with `NotFound` exactly when there is no current article.
pub fn verify(title: String, body: String, article: Option<&Article>) -> (updated: Result<
    ArticleUpdated,
    ArticleError,
>)
    ensures
        article is None ==> updated == Err::<ArticleUpdated, ArticleError>(ArticleError::NotFound),
        article matches Some(current) ==> updated is Ok && updated->Ok_0@ == (EventView::Updated {
            article_id: current.article_id,
            version: current.version,
            title: title@,
            body: body@,
        }),
{
    match article {
        None => Err(ArticleError::NotFound),
        Some(current) => Ok(
            ArticleUpdated {
                article_id: current.article_id,
                version: current.version,
                title,
                body,
            },
        ),
    }
}

/// The article that an update event gives when applied to `article`: the same
/// id, the event's title and body, and the version counted up by one.
pub fn mutate(article_updated: &ArticleUpdated, article: &Article) -> (next: Article)
    requires
        article.version < u64::MAX,
    ensures
        next@ == (ArticleView {
            article_id: article.article_id,
            version: (article.version + 1) as u64,
            title: article_updated.title@,
            body: article_updated.body@,
        }),
        next@ == article_updated@.apply(Some(article@)),
{
    Article {
        article_id: article.article_id,
        version: article.version + 1,
        title: article_updated.title.clone(),
        body: article_updated.body.clone(),
    }
}

} // verus!
