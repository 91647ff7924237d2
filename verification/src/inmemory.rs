//! The reference in-memory storage backend.
//!
//! All state lives in a map from client identifier to that client's
//! record.  Beginning a transaction moves the state into the transaction
//! handle, which therefore holds exclusive access for its whole
//! lifetime; `finish` hands the state back.  This backend's `commit` is
//! a marker (state is mutated in place): its sole purpose is to record
//! that the caller intended to keep its writes, and `finish` refuses a
//! transaction that wrote without committing, so that no intended write
//! is ever lost silently.

use std::collections::HashMap;
use vstd::prelude::*;

use crate::storage::{
    add_version_model, bytes_option_view, Client, ClientState, new_client_model,
    set_snapshot_model, Snapshot, Storage, StorageError, StorageTxn, Version,
};

verus! {

broadcast use vstd::std_specs::hash::group_hash_axioms;

/// Everything stored for one client.
struct ClientEntry {
    /// The client's metadata: latest version and current snapshot.
    client: Client,
    /// The current snapshot's payload bytes.
    snapshot_data: Option<Vec<u8>>,
    /// Versions, indexed by their own identifier.
    versions: HashMap<u128, Version>,
    /// Child versions, indexed by parent version identifier.
    children: HashMap<u128, u128>,
}

impl View for ClientEntry {
    type V = ClientState;

    closed spec fn view(&self) -> ClientState {
        ClientState {
            client: self.client,
            snapshot_data: bytes_option_view(self.snapshot_data),
            versions: Map::new(
                |v: u128| self.versions@.contains_key(v),
                |v: u128| self.versions@[v]@,
            ),
            children: self.children@,
        }
    }
}

/// The abstract state held by a map of client entries.
spec fn state_of(m: Map<u128, ClientEntry>) -> Map<u128, ClientState> {
    Map::new(|c: u128| m.contains_key(c), |c: u128| m[c]@)
}

/// In-memory storage for testing and experimentation.
///
/// This is not for production use, but supports testing of sync server
/// implementations.
pub struct InMemoryStorage {
    clients: HashMap<u128, ClientEntry>,
}

impl InMemoryStorage {
    /// An empty backend: no client was ever created.
    pub fn new() -> (s: Self)
        ensures
            s.state() == Map::<u128, ClientState>::empty(),
    {
        let s = InMemoryStorage { clients: HashMap::new() };
        proof {
            assert(s.state() =~= Map::<u128, ClientState>::empty());
        }
        s
    }
}

/// A transaction against an [`InMemoryStorage`] backend.  It owns the
/// backend's state until it is finalized with [`InMemoryTxn::finish`].
pub struct InMemoryTxn {
    clients: HashMap<u128, ClientEntry>,
    written: bool,
    committed: bool,
}

impl Storage for InMemoryStorage {
    type Txn = InMemoryTxn;

    closed spec fn state(&self) -> Map<u128, ClientState> {
        state_of(self.clients@)
    }

    fn txn(self) -> (t: InMemoryTxn) {
        InMemoryTxn { clients: self.clients, written: false, committed: false }
    }
}

impl InMemoryTxn {
    /// Finalize the transaction and hand the state back to the backend.
    ///
    /// A transaction that performed writes and was not committed is a
    /// caller bug: its writes are refused loudly rather than kept or
    /// dropped silently.  A read-only transaction may be finalized
    /// without commit; that is not an error.
    pub fn finish(self) -> (r: Result<InMemoryStorage, StorageError>)
        ensures
            match r {
                Ok(s) => (self.committed() || !self.written()) && s.state() == self.model(),
                Err(e) => {
                    &&& e == StorageError::UnfinalizedWriteTransaction
                    &&& self.written()
                    &&& !self.committed()
                },
            },
    {
        if self.written && !self.committed {
            Err(StorageError::UnfinalizedWriteTransaction)
        } else {
            Ok(InMemoryStorage { clients: self.clients })
        }
    }

    /// Whether this transaction has performed at least one write.
    pub fn was_written(&self) -> (r: bool)
        ensures
            r == self.written(),
    {
        self.written
    }

    /// Whether `commit` has been called on this transaction.
    pub fn was_committed(&self) -> (r: bool)
        ensures
            r == self.committed(),
    {
        self.committed
    }
}

/// Copy a byte payload.
fn clone_bytes(data: &Vec<u8>) -> (r: Vec<u8>)
    ensures
        r@ == data@,
{
    let r = data.clone();
    proof {
        assert(r@ =~= data@);
    }
    r
}

/// Copy a version record.
fn clone_version(v: &Version) -> (r: Version)
    ensures
        r@ == v@,
{
    Version {
        version_id: v.version_id,
        parent_version_id: v.parent_version_id,
        history_segment: clone_bytes(&v.history_segment),
    }
}

impl StorageTxn for InMemoryTxn {
    closed spec fn model(&self) -> Map<u128, ClientState> {
        state_of(self.clients@)
    }

    closed spec fn written(&self) -> bool {
        self.written
    }

    closed spec fn committed(&self) -> bool {
        self.committed
    }

    fn get_client(&mut self, client_id: u128) -> (r: Result<Option<Client>, StorageError>) {
        match self.clients.get(&client_id) {
            Some(entry) => Ok(Some(entry.client)),
            None => Ok(None),
        }
    }

    fn new_client(&mut self, client_id: u128, latest_version_id: u128) -> (r: Result<
        (),
        StorageError,
    >) {
        if self.clients.contains_key(&client_id) {
            return Err(StorageError::ClientAlreadyExists);
        }
        let entry = ClientEntry {
            client: Client { latest_version_id, snapshot: None },
            snapshot_data: None,
            versions: HashMap::new(),
            children: HashMap::new(),
        };
        self.clients.insert(client_id, entry);
        self.written = true;
        proof {
            assert(self.model() =~~= new_client_model(
                old(self).model(),
                client_id,
                latest_version_id,
            ));
        }
        Ok(())
    }

    fn set_snapshot(&mut self, client_id: u128, snapshot: Snapshot, data: Vec<u8>) -> (r: Result<
        (),
        StorageError,
    >) {
        match self.clients.remove(&client_id) {
            None => {
                proof {
                    assert(self.model() =~~= old(self).model());
                }
                Err(StorageError::ClientNotFound)
            },
            Some(entry) => {
                let updated = ClientEntry {
                    client: Client {
                        latest_version_id: entry.client.latest_version_id,
                        snapshot: Some(snapshot),
                    },
                    snapshot_data: Some(data),
                    versions: entry.versions,
                    children: entry.children,
                };
                self.clients.insert(client_id, updated);
                self.written = true;
                proof {
                    assert(self.model() =~~= set_snapshot_model(
                        old(self).model(),
                        client_id,
                        snapshot,
                        data@,
                    ));
                }
                Ok(())
            },
        }
    }

    fn get_snapshot_data(&mut self, client_id: u128, version_id: u128) -> (r: Result<
        Option<Vec<u8>>,
        StorageError,
    >) {
        match self.clients.get(&client_id) {
            None => Err(StorageError::ClientNotFound),
            Some(entry) => match entry.client.snapshot {
                None => Err(StorageError::SnapshotMismatch),
                Some(snap) => {
                    if snap.version_id != version_id {
                        Err(StorageError::SnapshotMismatch)
                    } else {
                        match &entry.snapshot_data {
                            None => Ok(None),
                            Some(d) => Ok(Some(clone_bytes(d))),
                        }
                    }
                },
            },
        }
    }

    fn get_version_by_parent(&mut self, client_id: u128, parent_version_id: u128) -> (r: Result<
        Option<Version>,
        StorageError,
    >) {
        match self.clients.get(&client_id) {
            None => Ok(None),
            Some(entry) => match entry.children.get(&parent_version_id) {
                None => Ok(None),
                Some(child_id) => match entry.versions.get(child_id) {
                    None => Ok(None),
                    Some(v) => Ok(Some(clone_version(v))),
                },
            },
        }
    }

    fn get_version(&mut self, client_id: u128, version_id: u128) -> (r: Result<
        Option<Version>,
        StorageError,
    >) {
        match self.clients.get(&client_id) {
            None => Ok(None),
            Some(entry) => match entry.versions.get(&version_id) {
                None => Ok(None),
                Some(v) => Ok(Some(clone_version(v))),
            },
        }
    }

    fn add_version(
        &mut self,
        client_id: u128,
        version_id: u128,
        parent_version_id: u128,
        history_segment: Vec<u8>,
    ) -> (r: Result<(), StorageError>) {
        match self.clients.remove(&client_id) {
            None => {
                proof {
                    assert(self.model() =~~= old(self).model());
                }
                Err(StorageError::ClientNotFound)
            },
            Some(entry) => {
                let snapshot = match entry.client.snapshot {
                    Some(snap) => Some(
                        Snapshot {
                            version_id: snap.version_id,
                            timestamp: snap.timestamp,
                            versions_since: snap.versions_since + 1,
                        },
                    ),
                    None => None,
                };
                let mut versions = entry.versions;
                let mut children = entry.children;
                versions.insert(
                    version_id,
                    Version { version_id, parent_version_id, history_segment },
                );
                children.insert(parent_version_id, version_id);
                let updated = ClientEntry {
                    client: Client { latest_version_id: version_id, snapshot },
                    snapshot_data: entry.snapshot_data,
                    versions,
                    children,
                };
                self.clients.insert(client_id, updated);
                self.written = true;
                proof {
                    assert(self.model() =~~= add_version_model(
                        old(self).model(),
                        client_id,
                        version_id,
                        parent_version_id,
                        history_segment@,
                    ));
                }
                Ok(())
            },
        }
    }

    fn commit(&mut self) -> (r: Result<(), StorageError>) {
        if self.committed {
            Err(StorageError::DoubleCommit)
        } else {
            self.committed = true;
            Ok(())
        }
    }
}

} // verus!
