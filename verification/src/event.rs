//! Events, and how one event changes an article.

use vstd::prelude::*;

use crate::article::{Article, ArticleCreated, ArticleUpdated, ArticleView};

verus! {

/// An accepted change to an article, as the event log records it.
#[derive(Debug, PartialEq, Eq)]
pub enum ArticleEvent {
    ArticleCreated(ArticleCreated),
    ArticleUpdated(ArticleUpdated),
}

/// An entry of the event log.
#[derive(Debug, PartialEq, Eq)]
pub enum Event {
    ArticleEvent(ArticleEvent),
}

/// What an event holds, whichever type carries it.
pub ghost enum EventView {
    Created { article_id: u128, version: u64, title: Seq<char>, body: Seq<char> },
    Updated { article_id: u128, version: u64, title: Seq<char>, body: Seq<char> },
}

impl EventView {
    /// The article that results when this event is applied to `prior`.
    ///
    /// A creation gives a fresh article at version 0, whatever `prior` is and
    /// whatever version the event carries. An update keeps the prior article's
    /// id, replaces title and body, and counts the version up by one; without
    /// a prior article it has no meaning.
    pub open spec fn apply(self, prior: Option<ArticleView>) -> ArticleView
        recommends
            self is Updated ==> prior is Some,
    {
        match self {
            EventView::Created { article_id, title, body, .. } => ArticleView {
                article_id,
                version: 0,
                title,
                body,
            },
            EventView::Updated { title, body, .. } => ArticleView {
                article_id: prior.unwrap().article_id,
                version: (prior.unwrap().version + 1) as u64,
                title,
                body,
            },
        }
    }
}

impl View for ArticleEvent {
    type V = EventView;

    open spec fn view(&self) -> EventView {
        match self {
            ArticleEvent::ArticleCreated(created) => created@,
            ArticleEvent::ArticleUpdated(updated) => updated@,
        }
    }
}

impl View for Event {
    type V = EventView;

    open spec fn view(&self) -> EventView {
        match self {
            Event::ArticleEvent(event) => event@,
        }
    }
}

impl Event {
    /// What an event that may be absent holds.
    pub open spec fn view_option(event: Option<Event>) -> Option<EventView> {
        match event {
            Some(event) => Some(event@),
            None => None,
        }
    }
}

impl Clone for ArticleEvent {
    fn clone(&self) -> (copy: Self)
        ensures
            copy@ == self@,
    {
        match self {
            ArticleEvent::ArticleCreated(created) => ArticleEvent::ArticleCreated(created.clone()),
            ArticleEvent::ArticleUpdated(updated) => ArticleEvent::ArticleUpdated(updated.clone()),
        }
    }
}

impl Clone for Event {
    fn clone(&self) -> (copy: Self)
        ensures
            copy@ == self@,
    {
        match self {
            Event::ArticleEvent(event) => Event::ArticleEvent(event.clone()),
        }
    }
}

/// Applies one event to the article as it was, and gives the article as it
/// is then. The result depends on the two arguments alone, so replaying a
/// history always gives the same articles.
///
/// A creation needs no prior article and ignores one that is given. An
/// update needs the prior article, and room to count its version up.
pub fn mutate(event: &Event, prior: Option<&Article>) -> (article: Article)
    requires
        event@ is Updated ==> prior is Some && prior.unwrap().version < u64::MAX,
    ensures
        article@ == event@.apply(
            match prior {
                Some(current) => Some(current@),
                None => None,
            },
        ),
{
    match event {
        Event::ArticleEvent(ArticleEvent::ArticleCreated(created)) => {
            crate::article_create_logic::mutate(created)
        },
        Event::ArticleEvent(ArticleEvent::ArticleUpdated(updated)) => {
            crate::article_update_logic::mutate(updated, prior.unwrap())
        },
    }
}

} // verus!
