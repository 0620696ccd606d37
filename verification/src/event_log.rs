//! The event log: the history of all articles in one order.

use ic_stable_structures::log::{InitError, WriteError};
use vstd::prelude::*;

use crate::encoding::parse_event;
use crate::error::ArticleError;
use crate::event::{Event, EventView};
use crate::stable_memory::{log_entries, LogRegion, StableMemory};

verus! {

/// The append-only history of events. Every event keeps the index it was
/// given when it was appended; no entry is ever changed or removed.
pub struct EventLog {
    region: LogRegion,
}

impl View for EventLog {
    type V = Seq<Option<EventView>>;

    /// The log's entries in order. An entry whose bytes encode no event
    /// stands as `None`; this library writes no such entry.
    closed spec fn view(&self) -> Seq<Option<EventView>> {
        Self::decoded(log_entries(self.region))
    }
}

/// What an append gives for each outcome of writing the entry: the entry's
/// index where it was written, `StorageExhausted` where it was not.
pub fn written_index(written: Result<u64, WriteError>) -> (outcome: Result<u64, ArticleError>)
    ensures
        match written {
            Ok(index) => outcome == Ok::<u64, ArticleError>(index),
            Err(_) => outcome == Err::<u64, ArticleError>(ArticleError::StorageExhausted),
        },
{
    match written {
        Ok(index) => Ok(index),
        Err(_) => Err(ArticleError::StorageExhausted),
    }
}

impl EventLog {
    /// The events that the entries of a log region encode, in order. An
    /// entry that encodes no event stands as `None`.
    pub open spec fn decoded(entries: Seq<Seq<u8>>) -> Seq<Option<EventView>> {
        Seq::new(entries.len(), |index: int| parse_event(entries[index]))
    }

    /// What opening a log gives for each outcome of opening its regions: the
    /// log over the region's entries where they were opened, `None` where
    /// they were not.
    pub(crate) fn over(outcome: Result<LogRegion, InitError>) -> (log: Option<EventLog>)
        ensures
            match outcome {
                Ok(region) => log is Some && log.unwrap()@ == Self::decoded(log_entries(region)),
                Err(_) => log is None,
            },
    {
        match outcome {
            Ok(region) => Some(EventLog { region }),
            Err(_) => None,
        }
    }

    /// Takes up the log in the two regions of `memory`. Gives `None` where
    /// the regions hold a log that cannot be read. Which events the log
    /// holds, and whether it can be read, rests with what the memory holds.
    pub(crate) fn open(memory: &StableMemory, index_id: u8, data_id: u8) -> (opened: Option<EventLog>)
        requires
            index_id < 255,
            data_id < 255,
            index_id != data_id,
    {
        Self::over(LogRegion::open(memory, index_id, data_id))
    }

    /// The number of entries.
    pub fn len(&self) -> (count: u64)
        ensures
            count == self@.len(),
    {
        self.region.len()
    }

    /// The event at `index`. Gives `None` where the log has no such entry.
    pub fn get(&self, index: u64) -> (found: Option<Event>)
        ensures
            match found {
                Some(event) => index < self@.len() && self@[index as int] == Some(event@),
                None => index >= self@.len() || self@[index as int] is None,
            },
    {
        match self.region.get(index) {
            Some(bytes) => Event::from_bytes(bytes.as_slice()),
            None => None,
        }
    }

    /// Appends `event` and gives its index, the number of entries before.
    /// Fails with `StorageExhausted` where the log cannot grow; the log is
    /// then as it was.
    pub fn append(&mut self, event: &Event) -> (outcome: Result<u64, ArticleError>)
        ensures
            match outcome {
                Ok(index) => index == old(self)@.len() && final(self)@ == old(self)@.push(
                    Some(event@),
                ),
                Err(error) => error == ArticleError::StorageExhausted && final(self)@ == old(
                    self,
                )@,
            },
    {
        let bytes = event.to_bytes();
        let written = self.region.append(&bytes);
        written_index(written)
    }
}

} // verus!
