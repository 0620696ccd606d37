//! What holds over many commands: how a run of updates counts the version,
//! and that the snapshots are what replaying the history gives.

use vstd::prelude::*;

use crate::article::{Article, ArticleView};
use crate::event::{mutate, ArticleEvent, Event, EventView};
use crate::event_log::EventLog;
use crate::service::ServiceState;

verus! {

/// What one entry of the history does to the article under `id`.
///
/// A creation of that article starts it afresh. An update of that article
/// changes it, where there is an article to change and room to count its
/// version up. Every other entry leaves the article as it was.
pub open spec fn replay_step(prior: Option<ArticleView>, entry: Option<EventView>, id: u128) -> Option<
    ArticleView,
> {
    match entry {
        Some(EventView::Created { article_id, .. }) => if article_id == id {
            Some(entry.unwrap().apply(None))
        } else {
            prior
        },
        Some(EventView::Updated { article_id, .. }) => if article_id == id && prior is Some
            && prior.unwrap().version < u64::MAX {
            Some(entry.unwrap().apply(prior))
        } else {
            prior
        },
        None => prior,
    }
}

/// The article that the history gives for `id`: what is there after every
/// entry was applied in order, starting from nothing. `None` where no entry
/// created the article.
pub open spec fn replay(events: Seq<Option<EventView>>, id: u128) -> Option<ArticleView>
    decreases events.len(),
{
    if events.len() == 0 {
        None
    } else {
        replay_step(replay(events.drop_last(), id), events.last(), id)
    }
}

impl ServiceState {
    /// The state after the article under `id` was updated once for each
    /// element of `calls`, in order, each with that element's title and body.
    pub open spec fn update_all(self, id: u128, calls: Seq<(Seq<char>, Seq<char>)>) -> ServiceState
        decreases calls.len(),
    {
        if calls.len() == 0 {
            self
        } else {
            self.update_all(id, calls.drop_last()).update(id, calls.last().0, calls.last().1)
        }
    }

    /// Whether the snapshots are what the history gives: under each id stands
    /// the article that replaying the events gives for it, and nothing where
    /// they give none.
    pub open spec fn replayable(self) -> bool {
        forall|id: u128| #[trigger] self.article(id) == replay(self.events, id)
    }
}

/// After any number of updates of an article, its version has grown by that
/// number, its id is as it was, and its title and body are those of the last
/// update. The history has grown by one event for each update, in order, and
/// the event of each records the version before it: the version at the start
/// plus the number of updates that came before. The events that were in the
/// history are as they were, and so is every other article.
pub proof fn lemma_successive_updates(
    state: ServiceState,
    id: u128,
    calls: Seq<(Seq<char>, Seq<char>)>,
)
    requires
        state.snapshots.contains_key(id),
        state.snapshots[id].version + calls.len() <= u64::MAX,
    ensures
        state.update_all(id, calls).snapshots.contains_key(id),
        state.update_all(id, calls).snapshots[id].article_id == state.snapshots[id].article_id,
        state.update_all(id, calls).snapshots[id].version == state.snapshots[id].version
            + calls.len(),
        calls.len() > 0 ==> state.update_all(id, calls).snapshots[id].title == calls.last().0
            && state.update_all(id, calls).snapshots[id].body == calls.last().1,
        state.update_all(id, calls).events.len() == state.events.len() + calls.len(),
        forall|position: int|
            0 <= position < calls.len() ==> #[trigger] state.update_all(
                id,
                calls,
            ).events[state.events.len() + position] == Some(
                EventView::Updated {
                    article_id: state.snapshots[id].article_id,
                    version: (state.snapshots[id].version + position) as u64,
                    title: calls[position].0,
                    body: calls[position].1,
                },
            ),
        state.events.is_prefix_of(state.update_all(id, calls).events),
        state.update_all(id, calls).snapshots.remove(id) == state.snapshots.remove(id),
    decreases calls.len(),
{
    if calls.len() > 0 {
        lemma_successive_updates(state, id, calls.drop_last());
    }
}

/// Every article that a history gives for an id carries that id.
pub proof fn lemma_replay_keeps_id(events: Seq<Option<EventView>>, id: u128)
    ensures
        replay(events, id) matches Some(article) ==> article.article_id == id,
    decreases events.len(),
{
    if events.len() > 0 {
        lemma_replay_keeps_id(events.drop_last(), id);
    }
}

/// With no events and no snapshots, the snapshots are what the history
/// gives.
pub proof fn lemma_empty_is_replayable()
    ensures
        (ServiceState { events: Seq::empty(), snapshots: Map::empty() }).replayable(),
{
}

/// Creating an article keeps the snapshots what the history gives.
pub proof fn lemma_create_keeps_replayable(
    state: ServiceState,
    id: u128,
    title: Seq<char>,
    body: Seq<char>,
)
    requires
        state.replayable(),
    ensures
        state.create(id, title, body).replayable(),
{
    let after = state.create(id, title, body);
    assert(after.events.drop_last() =~= state.events);
    assert forall|other: u128| #[trigger] after.article(other) == replay(after.events, other) by {
        assert(state.article(other) == replay(state.events, other));
    }
}

/// Updating an article whose version can still be counted up keeps the
/// snapshots what the history gives.
pub proof fn lemma_update_keeps_replayable(
    state: ServiceState,
    id: u128,
    title: Seq<char>,
    body: Seq<char>,
)
    requires
        state.replayable(),
        state.snapshots.contains_key(id),
        state.snapshots[id].version < u64::MAX,
    ensures
        state.update(id, title, body).replayable(),
{
    let after = state.update(id, title, body);
    assert(after.events.drop_last() =~= state.events);
    lemma_replay_keeps_id(state.events, id);
    assert(state.article(id) == replay(state.events, id));
    assert forall|other: u128| #[trigger] after.article(other) == replay(after.events, other) by {
        assert(state.article(other) == replay(state.events, other));
    }
}

/// Applies one event of the history to the article `article_id` as it was.
fn replay_event(prior: Option<Article>, event: &Event, article_id: u128) -> (next: Option<Article>)
    ensures
        Article::view_option(next) == replay_step(
            Article::view_option(prior),
            Some(event@),
            article_id,
        ),
{
    match event {
        Event::ArticleEvent(ArticleEvent::ArticleCreated(created)) => {
            if created.article_id == article_id {
                Some(mutate(event, None))
            } else {
                prior
            }
        },
        Event::ArticleEvent(ArticleEvent::ArticleUpdated(updated)) => {
            if updated.article_id != article_id {
                return prior;
            }
            match prior {
                Some(current) => {
                    if current.version < u64::MAX {
                        Some(mutate(event, Some(&current)))
                    } else {
                        Some(current)
                    }
                },
                None => None,
            }
        },
    }
}

impl EventLog {
    /// Rebuilds the article `article_id` from the history alone: applies
    /// every event about it in order, starting from nothing. Gives `None`
    /// where no event created the article.
    pub fn replay(&self, article_id: u128) -> (rebuilt: Option<Article>)
        ensures
            Article::view_option(rebuilt) == replay(self@, article_id),
    {
        let count = self.len();
        let mut state: Option<Article> = None;
        let mut index: u64 = 0;
        while index < count
            invariant
                count == self@.len(),
                index <= count,
                Article::view_option(state) == replay(self@.take(index as int), article_id),
            decreases count - index,
        {
            proof {
                assert(self@.take(index + 1).drop_last() =~= self@.take(index as int));
            }
            match self.get(index) {
                Some(event) => {
                    state = replay_event(state, &event, article_id);
                },
                None => {},
            }
            index = index + 1;
        }
        proof {
            assert(self@.take(count as int) =~= self@);
        }
        state
    }
}

} // verus!
