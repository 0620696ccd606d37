//! The stable structures that hold the bytes of the store.
//!
//! Everything in this file is taken on trust: the contracts say what the
//! stable map and the stable log do, and nothing checks them against the
//! code that does it.

use ic_stable_structures::log::{InitError, WriteError};
use ic_stable_structures::memory_manager::{MemoryId, MemoryManager, VirtualMemory};
use ic_stable_structures::storable::Blob;
use ic_stable_structures::{DefaultMemoryImpl, StableBTreeMap, StableLog};
use vstd::prelude::*;

verus! {

/// The error of `StableLog::append`. Nothing inside it is read.
#[verifier::external_type_specification]
#[verifier::external_body]
pub struct ExWriteError(WriteError);

/// The error of `StableLog::init`. Nothing inside it is read.
#[verifier::external_type_specification]
#[verifier::external_body]
pub struct ExInitError(InitError);

/// The process's durable memory, divided into numbered regions by a
/// `MemoryManager` over `DefaultMemoryImpl`.
#[verifier::external_body]
pub struct StableMemory {
    manager: MemoryManager<DefaultMemoryImpl>,
}

/// A region of durable memory that holds a `StableBTreeMap` from ids to byte
/// strings of at most 2000 bytes.
#[verifier::external_body]
pub struct SnapshotRegion {
    map: StableBTreeMap<u128, Blob<2000>, VirtualMemory<DefaultMemoryImpl>>,
}

/// Two regions of durable memory that together hold a `StableLog` of byte
/// strings.
#[verifier::external_body]
pub struct LogRegion {
    log: StableLog<Vec<u8>, VirtualMemory<DefaultMemoryImpl>, VirtualMemory<DefaultMemoryImpl>>,
}

/// The entries of the map in `region`: the byte string stored under each key.
pub uninterp spec fn snapshot_entries(region: SnapshotRegion) -> Map<u128, Seq<u8>>;

/// The entries of the log in `region`, in the order in which they were
/// appended.
pub uninterp spec fn log_entries(region: LogRegion) -> Seq<Seq<u8>>;

impl StableMemory {
    /// `MemoryManager::init` on `DefaultMemoryImpl::default()`: takes up the
    /// regions that the memory holds already, or divides an empty memory
    /// anew. Nothing is claimed of the result. The call does not return where
    /// the memory was divided by a manager of another layout.
    #[verifier::external_body]
    pub(crate) fn open() -> (memory: StableMemory) {
        StableMemory { manager: MemoryManager::init(DefaultMemoryImpl::default()) }
    }
}

impl SnapshotRegion {
    /// `StableBTreeMap::init` on the region `id` of `memory`: loads the map
    /// that the region holds, or makes an empty one where it holds none.
    /// Nothing is claimed of the entries. 255 is no region's id, and a
    /// region serves one store only. The call does not return where the
    /// region holds a map with smaller bounds on its entries.
    #[verifier::external_body]
    pub(crate) fn open(memory: &StableMemory, id: u8) -> (region: SnapshotRegion)
        requires
            id < 255,
    {
        SnapshotRegion { map: StableBTreeMap::init(memory.manager.get(MemoryId::new(id))) }
    }

    /// `StableBTreeMap::get`: the bytes stored under `key`, if there are any.
    #[verifier::external_body]
    pub(crate) fn get(&self, key: u128) -> (found: Option<Vec<u8>>)
        ensures
            found is Some <==> snapshot_entries(*self).contains_key(key),
            found matches Some(bytes) ==> bytes@ == snapshot_entries(*self)[key],
    {
        self.map.get(&key).map(|blob| blob.as_slice().to_vec())
    }

    /// `StableBTreeMap::insert`: afterwards `bytes` are stored under `key`,
    /// in place of what was stored there, and every other entry is as it
    /// was. The map takes values of at most 2000 bytes. As an allocation
    /// does, the call ends the process where the memory cannot grow.
    #[verifier::external_body]
    pub(crate) fn insert(&mut self, key: u128, bytes: &Vec<u8>)
        requires
            bytes@.len() <= 2000,
        ensures
            snapshot_entries(*final(self)) == snapshot_entries(*old(self)).insert(key, bytes@),
    {
        self.map.insert(key, Blob::try_from(bytes.as_slice()).unwrap());
    }

    /// `StableBTreeMap::remove`: afterwards nothing is stored under `key`,
    /// and every other entry is as it was.
    #[verifier::external_body]
    pub(crate) fn remove(&mut self, key: u128)
        ensures
            snapshot_entries(*final(self)) == snapshot_entries(*old(self)).remove(key),
    {
        self.map.remove(&key);
    }
}

impl LogRegion {
    /// `StableLog::init` on the regions `index_id` and `data_id` of `memory`:
    /// recovers the log that they hold, or makes an empty one where they hold
    /// none; fails where they hold a log of a layout it cannot read. Nothing
    /// is claimed of the entries. 255 is no region's id, and a region serves
    /// one store only.
    #[verifier::external_body]
    pub(crate) fn open(memory: &StableMemory, index_id: u8, data_id: u8) -> (opened: Result<
        LogRegion,
        InitError,
    >)
        requires
            index_id < 255,
            data_id < 255,
            index_id != data_id,
    {
        let index = memory.manager.get(MemoryId::new(index_id));
        let data = memory.manager.get(MemoryId::new(data_id));
        StableLog::init(index, data).map(|log| LogRegion { log })
    }

    /// `StableLog::len`: the number of entries.
    #[verifier::external_body]
    pub(crate) fn len(&self) -> (count: u64)
        ensures
            count == log_entries(*self).len(),
    {
        self.log.len()
    }

    /// `StableLog::get`: the entry at `index`, if the log is that long.
    #[verifier::external_body]
    pub(crate) fn get(&self, index: u64) -> (found: Option<Vec<u8>>)
        ensures
            found is Some <==> index < log_entries(*self).len(),
            found matches Some(bytes) ==> bytes@ == log_entries(*self)[index as int],
    {
        self.log.get(index)
    }

    /// `StableLog::append`: on success `bytes` are the new last entry, the
    /// entries before it are as they were, and the result is the new entry's
    /// index. On failure, which comes when a region cannot grow, the entries
    /// are as they were.
    #[verifier::external_body]
    pub(crate) fn append(&mut self, bytes: &Vec<u8>) -> (written: Result<u64, WriteError>)
        ensures
            match written {
                Ok(index) => index == log_entries(*old(self)).len() && log_entries(*final(self))
                    == log_entries(*old(self)).push(bytes@),
                Err(_) => log_entries(*final(self)) == log_entries(*old(self)),
            },
    {
        self.log.append(bytes)
    }
}

} // verus!
