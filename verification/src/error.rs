//! The errors of the article store.

use vstd::prelude::*;

verus! {

/// Why a command was not carried out. A command that fails leaves the event
/// log and the snapshot store as they were.
#[derive(Clone, Copy, Debug, PartialEq, Eq, Structural)]
pub enum ArticleError {
    /// No article is stored under the id.
    NotFound,
    /// The event log could not grow to take another entry.
    StorageExhausted,
    /// The encoded article is longer than a snapshot entry may be.
    SizeExceeded,
    /// The article's version counter is at its largest value and cannot count
    /// another update.
    VersionExhausted,
}

} // verus!
