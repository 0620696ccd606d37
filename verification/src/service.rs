//! The article service and the model of its state.

use vstd::prelude::*;

use crate::article::{Article, ArticleView, ARTICLE_MAX_SIZE};
use crate::article_create_logic::CREATED_VERSION;
use crate::encoding::article_size;
use crate::error::ArticleError;
use crate::event::{mutate, ArticleEvent, Event, EventView};
use crate::event_log::EventLog;
use crate::history::{lemma_create_keeps_replayable, lemma_update_keeps_replayable, replay};
use crate::snapshot_store::SnapshotStore;
use crate::stable_memory::StableMemory;

verus! {

/// The region of durable memory that holds the snapshot store.
pub const ARTICLE_MEM_ID: u8 = 0;

/// The region of durable memory that holds the index of the event log.
pub const EVENT_IDX_MEM_ID: u8 = 1;

/// The region of durable memory that holds the entries of the event log.
pub const EVENT_DATA_MEM_ID: u8 = 2;

/// What the service holds: the history of events, oldest first, and the
/// current article under each id.
pub ghost struct ServiceState {
    pub events: Seq<Option<EventView>>,
    pub snapshots: Map<u128, ArticleView>,
}

impl ServiceState {
    /// The event that records the creation of an article.
    pub open spec fn creation(id: u128, title: Seq<char>, body: Seq<char>) -> EventView {
        EventView::Created { article_id: id, version: CREATED_VERSION, title, body }
    }

    /// The event that records an update of the article under `id`: it
    /// carries the article's id and its version before the update.
    pub open spec fn revision(self, id: u128, title: Seq<char>, body: Seq<char>) -> EventView
        recommends
            self.snapshots.contains_key(id),
    {
        EventView::Updated {
            article_id: self.snapshots[id].article_id,
            version: self.snapshots[id].version,
            title,
            body,
        }
    }

    /// The state after an article was created: the creation event is the new
    /// last entry of the history, and the article stands under `id` at
    /// version 0, in place of any article that stood there.
    pub open spec fn create(self, id: u128, title: Seq<char>, body: Seq<char>) -> ServiceState {
        ServiceState {
            events: self.events.push(Some(Self::creation(id, title, body))),
            snapshots: self.snapshots.insert(id, Self::creation(id, title, body).apply(None)),
        }
    }

    /// The state after the article under `id` was updated: the update event
    /// is the new last entry of the history, and the article has the new
    /// title and body and the next version.
    pub open spec fn update(self, id: u128, title: Seq<char>, body: Seq<char>) -> ServiceState
        recommends
            self.snapshots.contains_key(id),
    {
        ServiceState {
            events: self.events.push(Some(self.revision(id, title, body))),
            snapshots: self.snapshots.insert(
                id,
                self.revision(id, title, body).apply(Some(self.snapshots[id])),
            ),
        }
    }

    /// The current article under `id`, if there is one.
    pub open spec fn article(self, id: u128) -> Option<ArticleView> {
        if self.snapshots.contains_key(id) {
            Some(self.snapshots[id])
        } else {
            None
        }
    }

    /// The event at position `index` of the history, if there is one.
    pub open spec fn event(self, index: u64) -> Option<EventView> {
        if index < self.events.len() {
            self.events[index as int]
        } else {
            None
        }
    }

    /// The error that a creation meets whatever the storage does, if there is
    /// one: `SizeExceeded` where the new article is too long to store.
    pub open spec fn create_refusal(id: u128, title: Seq<char>, body: Seq<char>) -> Option<
        ArticleError,
    > {
        if article_size(Self::creation(id, title, body).apply(None)) > ARTICLE_MAX_SIZE {
            Some(ArticleError::SizeExceeded)
        } else {
            None
        }
    }

    /// The error that an update meets whatever the storage does, if there is
    /// one: `NotFound` where no article stands under `id`; else
    /// `VersionExhausted` where its version cannot be counted up; else
    /// `SizeExceeded` where the updated article is too long to store.
    pub open spec fn update_refusal(self, id: u128, title: Seq<char>, body: Seq<char>) -> Option<
        ArticleError,
    > {
        if !self.snapshots.contains_key(id) {
            Some(ArticleError::NotFound)
        } else if self.snapshots[id].version == u64::MAX {
            Some(ArticleError::VersionExhausted)
        } else if article_size(self.revision(id, title, body).apply(Some(self.snapshots[id])))
            > ARTICLE_MAX_SIZE {
            Some(ArticleError::SizeExceeded)
        } else {
            None
        }
    }
}

/// The article service: it takes each command through validation, the event
/// log, the state change and the snapshot store, in that order.
pub struct ArticleService {
    events: EventLog,
    snapshots: SnapshotStore,
}

impl View for ArticleService {
    type V = ServiceState;

    closed spec fn view(&self) -> ServiceState {
        ServiceState { events: self.events@, snapshots: self.snapshots@ }
    }
}

impl ArticleService {
    /// Takes up the event log and the snapshot store that the process's
    /// durable memory holds, or starts both empty where it holds none. Gives
    /// `None` where the memory holds an event log that cannot be read.
    ///
    /// What the service holds, and whether the log can be read, rests with
    /// what the memory holds. `from_parts` says what the service is over the
    /// log and the store that were opened.
    pub fn init() -> (opened: Option<ArticleService>) {
        let memory = StableMemory::open();
        let snapshots = SnapshotStore::open(&memory, ARTICLE_MEM_ID);
        match EventLog::open(&memory, EVENT_IDX_MEM_ID, EVENT_DATA_MEM_ID) {
            Some(events) => Some(ArticleService::from_parts(events, snapshots)),
            None => None,
        }
    }

    /// A service over the given log and store.
    pub fn from_parts(events: EventLog, snapshots: SnapshotStore) -> (service: ArticleService)
        ensures
            service@ == (ServiceState { events: events@, snapshots: snapshots@ }),
    {
        ArticleService { events, snapshots }
    }

    /// The service's log and store.
    pub fn into_parts(self) -> (parts: (EventLog, SnapshotStore))
        ensures
            self@ == (ServiceState { events: parts.0@, snapshots: parts.1@ }),
    {
        (self.events, self.snapshots)
    }

    /// The current article under `article_id`, if there is one.
    ///
    /// A read changes nothing, and what it gives is fixed by the state and
    /// the id: asked again, it gives the same again.
    pub fn get(&self, article_id: u128) -> (found: Option<Article>)
        ensures
            Article::view_option(found) == self@.article(article_id),
    {
        self.snapshots.get(article_id)
    }

    /// The event at position `idx` of the history, if there is one.
    ///
    /// A read changes nothing, and what it gives is fixed by the state and
    /// the position: asked again, it gives the same again.
    pub fn get_event(&self, idx: u64) -> (found: Option<Event>)
        ensures
            Event::view_option(found) == self@.event(idx),
    {
        self.events.get(idx)
    }

    /// Rebuilds the article `article_id` from the history alone, as it
    /// would be done were the snapshot store lost. Where the snapshots are
    /// what the history gives, this is the article that `get` gives.
    pub fn replay(&self, article_id: u128) -> (rebuilt: Option<Article>)
        ensures
            Article::view_option(rebuilt) == replay(self@.events, article_id),
            self@.replayable() ==> Article::view_option(rebuilt) == self@.article(article_id),
    {
        self.events.replay(article_id)
    }

    /// The number of events in the history.
    pub fn event_count(&self) -> (count: u64)
        ensures
            count == self@.events.len(),
    {
        self.events.len()
    }

    /// Creates the article `article_id` with the given title and body, at
    /// version 0. An article that stands under the id already is replaced.
    ///
    /// Fails with `SizeExceeded` exactly when the article is too long to
    /// store. Otherwise the command is carried out, unless the event log
    /// cannot grow: then it fails with `StorageExhausted`. A command that
    /// fails changes nothing.
    pub fn create(&mut self, article_id: u128, title: String, body: String) -> (outcome: Result<
        (),
        ArticleError,
    >)
        ensures
            match ServiceState::create_refusal(article_id, title@, body@) {
                Some(error) => outcome == Err::<(), ArticleError>(error),
                None => outcome is Ok || outcome == Err::<(), ArticleError>(
                    ArticleError::StorageExhausted,
                ),
            },
            outcome is Err ==> final(self)@ == old(self)@,
            outcome is Ok ==> final(self)@ == old(self)@.create(article_id, title@, body@),
            old(self)@.events.is_prefix_of(final(self)@.events),
            outcome is Ok ==> final(self)@.snapshots[article_id] == (ArticleView {
                article_id,
                version: 0,
                title: title@,
                body: body@,
            }),
            outcome is Ok ==> final(self)@.events[old(self)@.events.len() as int] == Some(
                ServiceState::creation(article_id, title@, body@),
            ),
            old(self)@.replayable() ==> final(self)@.replayable(),
    {
        proof {
            if self@.replayable() {
                lemma_create_keeps_replayable(self@, article_id, title@, body@);
            }
        }
        let article_created = crate::article_create_logic::verify(article_id, title, body);
        let event = Event::ArticleEvent(ArticleEvent::ArticleCreated(article_created));
        let article = mutate(&event, None);
        if !article.fits_snapshot() {
            return Err(ArticleError::SizeExceeded);
        }
        match self.events.append(&event) {
            Ok(_) => self.snapshots.put(article_id, &article),
            Err(error) => Err(error),
        }
    }

    /// Replaces title and body of the article `article_id` and counts its
    /// version up by one. The event records the version before the update.
    ///
    /// Fails with `NotFound` exactly when no article stands under the id;
    /// else with `VersionExhausted` exactly when the version is `u64::MAX`;
    /// else with `SizeExceeded` exactly when the updated article is too long
    /// to store. Otherwise the command is carried out, unless the event log
    /// cannot grow: then it fails with `StorageExhausted`. A command that
    /// fails changes nothing.
    pub fn update(&mut self, article_id: u128, title: String, body: String) -> (outcome: Result<
        (),
        ArticleError,
    >)
        ensures
            match old(self)@.update_refusal(article_id, title@, body@) {
                Some(error) => outcome == Err::<(), ArticleError>(error),
                None => outcome is Ok || outcome == Err::<(), ArticleError>(
                    ArticleError::StorageExhausted,
                ),
            },
            outcome is Err ==> final(self)@ == old(self)@,
            outcome is Ok ==> final(self)@ == old(self)@.update(article_id, title@, body@),
            old(self)@.events.is_prefix_of(final(self)@.events),
            outcome is Ok ==> final(self)@.snapshots[article_id] == (ArticleView {
                article_id: old(self)@.snapshots[article_id].article_id,
                version: (old(self)@.snapshots[article_id].version + 1) as u64,
                title: title@,
                body: body@,
            }),
            outcome is Ok ==> final(self)@.events[old(self)@.events.len() as int] == Some(
                old(self)@.revision(article_id, title@, body@),
            ),
            old(self)@.replayable() ==> final(self)@.replayable(),
    {
        proof {
            if self@.replayable() && self@.update_refusal(article_id, title@, body@) is None {
                lemma_update_keeps_replayable(self@, article_id, title@, body@);
            }
        }
        let current = self.snapshots.get(article_id);
        let article_updated = match crate::article_update_logic::verify(
            title,
            body,
            current.as_ref(),
        ) {
            Ok(article_updated) => article_updated,
            Err(error) => {
                return Err(error);
            },
        };
        let article = current.unwrap();
        if article.version == u64::MAX {
            return Err(ArticleError::VersionExhausted);
        }
        let event = Event::ArticleEvent(ArticleEvent::ArticleUpdated(article_updated));
        let updated_article = mutate(&event, Some(&article));
        if !updated_article.fits_snapshot() {
            return Err(ArticleError::SizeExceeded);
        }
        match self.events.append(&event) {
            Ok(_) => self.snapshots.put(article_id, &updated_article),
            Err(error) => Err(error),
        }
    }
}

} // verus!
