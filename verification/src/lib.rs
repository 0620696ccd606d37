//! An event-sourced store of articles, verified with Verus.
//!
//! Every accepted command is recorded as an event in an append-only log and
//! then folded into the current state of its article, which a snapshot store
//! keeps by id. Log and store live in stable memory, as byte records whose
//! encoding is defined and proved to round-trip in [`encoding`].
//!
//! [`service::ArticleService`] carries the commands out. Its contracts are
//! stated over [`service::ServiceState`], the history and the snapshots as
//! plain sequences and maps; [`history`] proves what follows for runs of
//! updates and for rebuilding articles from the log.
//!
//! What is taken on trust is in [`stable_memory`], the stable structures that
//! hold the bytes, and in [`string_specs`].

pub mod article;
pub mod article_create_logic;
pub mod article_update_logic;
pub mod encoding;
pub mod error;
pub mod event;
pub mod event_log;
pub mod history;
pub mod service;
pub mod snapshot_store;
pub mod stable_memory;
pub mod string_specs;
