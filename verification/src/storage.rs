//! The storage contract: the record types held by storage, the abstract
//! state they form, the transition functions describing each operation,
//! and the `Storage` / `StorageTxn` traits any backend must implement.
//!
//! Identifiers for clients and versions are globally unique 128-bit
//! values; the reserved value `NIL_VERSION_ID` denotes "no prior
//! version".  Timestamps are wall-clock instants in UTC, carried as
//! milliseconds since the Unix epoch.

use vstd::prelude::*;

verus! {

/// The reserved version identifier denoting "no prior version".
pub const NIL_VERSION_ID: u128 = 0;

/// The closed set of failures the storage contract can surface.
///
/// Absent values (no such client, no version at that parent, no
/// snapshot) are not errors: they are returned as `None`.
#[derive(Clone, Copy, Debug, PartialEq, Eq)]
pub enum StorageError {
    /// `new_client` was called with an identifier already present.
    ClientAlreadyExists,
    /// An operation referenced a client identifier that was never created.
    ClientNotFound,
    /// `get_snapshot_data` was called with an expected version that
    /// disagrees with the client's current snapshot.
    SnapshotMismatch,
    /// `commit` was invoked more than once on the same transaction.
    DoubleCommit,
    /// A transaction with pending writes was finalized without commit.
    UnfinalizedWriteTransaction,
}

/// Metadata about a snapshot, not including the snapshot data itself.
#[derive(Clone, Copy, Debug, PartialEq, Eq)]
pub struct Snapshot {
    /// Identifier of the version at which this snapshot was made.
    pub version_id: u128,
    /// Instant at which this snapshot was set (milliseconds since the
    /// Unix epoch, UTC).
    pub timestamp: i64,
    /// Number of versions appended since this snapshot was made.
    pub versions_since: u32,
}

/// Stored metadata about a client.
#[derive(Clone, Copy, Debug, PartialEq, Eq)]
pub struct Client {
    /// The most recently appended version for this client, or the value
    /// supplied at creation (possibly `NIL_VERSION_ID`) if none has been
    /// appended yet.
    pub latest_version_id: u128,
    /// The client's current snapshot, if one was ever set.
    pub snapshot: Option<Snapshot>,
}

/// One immutable incremental change record in a client's history.
#[derive(Clone, Debug, PartialEq, Eq)]
pub struct Version {
    /// Identifier of this version.
    pub version_id: u128,
    /// Identifier of the version this one extends.
    pub parent_version_id: u128,
    /// The opaque change data carried by this version.
    pub history_segment: Vec<u8>,
}

/// Mathematical value of a [`Version`].
#[verifier::ext_equal]
pub ghost struct VersionModel {
    pub version_id: u128,
    pub parent_version_id: u128,
    pub history_segment: Seq<u8>,
}

impl View for Version {
    type V = VersionModel;

    open spec fn view(&self) -> VersionModel {
        VersionModel {
            version_id: self.version_id,
            parent_version_id: self.parent_version_id,
            history_segment: self.history_segment@,
        }
    }
}

/// Everything storage holds for one client: its metadata, its snapshot
/// payload, its versions indexed by their own identifier, and the
/// parent-to-child index.
#[verifier::ext_equal]
pub ghost struct ClientState {
    pub client: Client,
    pub snapshot_data: Option<Seq<u8>>,
    pub versions: Map<u128, VersionModel>,
    pub children: Map<u128, u128>,
}

/// The state a client is created with: no history and no snapshot.
pub open spec fn fresh_client_state(latest_version_id: u128) -> ClientState {
    ClientState {
        client: Client { latest_version_id, snapshot: None },
        snapshot_data: None,
        versions: Map::empty(),
        children: Map::empty(),
    }
}

/// What `get_client` returns on state `m`: the client's current
/// metadata, or absent if it was never created.
pub open spec fn get_client_at(m: Map<u128, ClientState>, client_id: u128) -> Option<Client> {
    if m.contains_key(client_id) {
        Some(m[client_id].client)
    } else {
        None
    }
}

/// Whether `new_client` succeeds on state `m`: duplicate creation is an
/// error.
pub open spec fn new_client_result(m: Map<u128, ClientState>, client_id: u128) -> Result<
    (),
    StorageError,
> {
    if m.contains_key(client_id) {
        Err(StorageError::ClientAlreadyExists)
    } else {
        Ok(())
    }
}

/// The state after `new_client`: unchanged on failure, otherwise the
/// fresh client is added.
pub open spec fn new_client_model(
    m: Map<u128, ClientState>,
    client_id: u128,
    latest_version_id: u128,
) -> Map<u128, ClientState> {
    if m.contains_key(client_id) {
        m
    } else {
        m.insert(client_id, fresh_client_state(latest_version_id))
    }
}

/// Whether `set_snapshot` succeeds on state `m`: the client must exist.
pub open spec fn set_snapshot_result(m: Map<u128, ClientState>, client_id: u128) -> Result<
    (),
    StorageError,
> {
    if m.contains_key(client_id) {
        Ok(())
    } else {
        Err(StorageError::ClientNotFound)
    }
}

/// One client's state after `set_snapshot`: the snapshot metadata and
/// payload are replaced together; history is untouched.
pub open spec fn set_snapshot_state(s: ClientState, snapshot: Snapshot, data: Seq<u8>) -> ClientState {
    ClientState {
        client: Client { latest_version_id: s.client.latest_version_id, snapshot: Some(snapshot) },
        snapshot_data: Some(data),
        versions: s.versions,
        children: s.children,
    }
}

/// The state after `set_snapshot`: unchanged on failure.
pub open spec fn set_snapshot_model(
    m: Map<u128, ClientState>,
    client_id: u128,
    snapshot: Snapshot,
    data: Seq<u8>,
) -> Map<u128, ClientState> {
    if m.contains_key(client_id) {
        m.insert(client_id, set_snapshot_state(m[client_id], snapshot, data))
    } else {
        m
    }
}

/// What `get_snapshot_data` returns on state `m`: the stored payload,
/// owed exactly when the client exists and `version_id` agrees with its
/// current snapshot.
pub open spec fn get_snapshot_data_result(
    m: Map<u128, ClientState>,
    client_id: u128,
    version_id: u128,
) -> Result<Option<Seq<u8>>, StorageError> {
    if !m.contains_key(client_id) {
        Err(StorageError::ClientNotFound)
    } else {
        match m[client_id].client.snapshot {
            Some(snapshot) => if snapshot.version_id == version_id {
                Ok(m[client_id].snapshot_data)
            } else {
                Err(StorageError::SnapshotMismatch)
            },
            None => Err(StorageError::SnapshotMismatch),
        }
    }
}

/// What `get_version` returns on state `m`: a direct lookup by the
/// version's own identifier.
pub open spec fn get_version_at(
    m: Map<u128, ClientState>,
    client_id: u128,
    version_id: u128,
) -> Option<VersionModel> {
    if m.contains_key(client_id) && m[client_id].versions.contains_key(version_id) {
        Some(m[client_id].versions[version_id])
    } else {
        None
    }
}

/// What `get_version_by_parent` returns on state `m`: the version the
/// parent-to-child index points at, or absent if no child is indexed.
pub open spec fn get_version_by_parent_at(
    m: Map<u128, ClientState>,
    client_id: u128,
    parent_version_id: u128,
) -> Option<VersionModel> {
    if m.contains_key(client_id) && m[client_id].children.contains_key(parent_version_id) {
        get_version_at(m, client_id, m[client_id].children[parent_version_id])
    } else {
        None
    }
}

/// Whether `add_version` succeeds on state `m`: the client must exist.
pub open spec fn add_version_result(m: Map<u128, ClientState>, client_id: u128) -> Result<
    (),
    StorageError,
> {
    if m.contains_key(client_id) {
        Ok(())
    } else {
        Err(StorageError::ClientNotFound)
    }
}

/// A snapshot after one more version was appended: `versions_since`
/// grows by exactly one; no snapshot stays no snapshot.
pub open spec fn bumped_snapshot(snapshot: Option<Snapshot>) -> Option<Snapshot> {
    match snapshot {
        Some(snap) => Some(
            Snapshot {
                version_id: snap.version_id,
                timestamp: snap.timestamp,
                versions_since: (snap.versions_since + 1) as u32,
            },
        ),
        None => None,
    }
}

/// The machine limit on `add_version`: counting one more version past a
/// snapshot must not overflow the stored counter.
pub open spec fn add_version_allowed(m: Map<u128, ClientState>, client_id: u128) -> bool {
    m.contains_key(client_id) ==> match m[client_id].client.snapshot {
        Some(snap) => snap.versions_since < u32::MAX,
        None => true,
    }
}

/// One client's state after `add_version`: the version is inserted, the
/// latest-version pointer moves to it, the snapshot counter grows if a
/// snapshot exists, and the parent-to-child index entry is registered,
/// overwriting any prior entry for that parent.
pub open spec fn add_version_state(
    s: ClientState,
    version_id: u128,
    parent_version_id: u128,
    history_segment: Seq<u8>,
) -> ClientState {
    ClientState {
        client: Client {
            latest_version_id: version_id,
            snapshot: bumped_snapshot(s.client.snapshot),
        },
        snapshot_data: s.snapshot_data,
        versions: s.versions.insert(
            version_id,
            VersionModel { version_id, parent_version_id, history_segment },
        ),
        children: s.children.insert(parent_version_id, version_id),
    }
}

/// The state after `add_version`: unchanged on failure.
pub open spec fn add_version_model(
    m: Map<u128, ClientState>,
    client_id: u128,
    version_id: u128,
    parent_version_id: u128,
    history_segment: Seq<u8>,
) -> Map<u128, ClientState> {
    if m.contains_key(client_id) {
        m.insert(
            client_id,
            add_version_state(m[client_id], version_id, parent_version_id, history_segment),
        )
    } else {
        m
    }
}

/// The mathematical value of an optional version record.
pub open spec fn version_option_view(v: Option<Version>) -> Option<VersionModel> {
    match v {
        Some(version) => Some(version@),
        None => None,
    }
}

/// The mathematical value of an optional byte payload.
pub open spec fn bytes_option_view(data: Option<Vec<u8>>) -> Option<Seq<u8>> {
    match data {
        Some(bytes) => Some(bytes@),
        None => None,
    }
}

/// The mathematical value of a `get_snapshot_data` outcome.
pub open spec fn snapshot_data_result_view(r: Result<Option<Vec<u8>>, StorageError>) -> Result<
    Option<Seq<u8>>,
    StorageError,
> {
    match r {
        Ok(data) => Ok(bytes_option_view(data)),
        Err(e) => Err(e),
    }
}

/// A transaction in the storage backend.
///
/// Transactions are sequentially consistent: the results of transactions
/// performed in storage are as if each were executed one at a time in
/// some order.  Every operation's effect is pinned to the abstract state
/// `model()`, a new transaction starts from the backend's current state,
/// and only a finalized transaction hands a state back to the backend —
/// so no transaction can observe another's unfinalized writes.
pub trait StorageTxn: Sized {
    /// The abstract storage state visible through this transaction.
    spec fn model(&self) -> Map<u128, ClientState>;

    /// Whether this transaction has performed at least one write.
    spec fn written(&self) -> bool;

    /// Whether `commit` has been called on this transaction.
    spec fn committed(&self) -> bool;

    /// Get information about the given client.
    fn get_client(&mut self, client_id: u128) -> (r: Result<Option<Client>, StorageError>)
        ensures
            final(self).model() == old(self).model(),
            final(self).written() == old(self).written(),
            final(self).committed() == old(self).committed(),
            r == Ok::<Option<Client>, StorageError>(get_client_at(old(self).model(), client_id)),
    ;

    /// Create a new client with the given `latest_version_id`.
    fn new_client(&mut self, client_id: u128, latest_version_id: u128) -> (r: Result<
        (),
        StorageError,
    >)
        ensures
            final(self).model() == new_client_model(old(self).model(), client_id, latest_version_id),
            r == new_client_result(old(self).model(), client_id),
            final(self).written() == (old(self).written() || r is Ok),
            final(self).committed() == old(self).committed(),
    ;

    /// Set the client's most recent snapshot, replacing the snapshot
    /// metadata and payload together.
    fn set_snapshot(&mut self, client_id: u128, snapshot: Snapshot, data: Vec<u8>) -> (r: Result<
        (),
        StorageError,
    >)
        ensures
            final(self).model() == set_snapshot_model(old(self).model(), client_id, snapshot, data@),
            r == set_snapshot_result(old(self).model(), client_id),
            final(self).written() == (old(self).written() || r is Ok),
            final(self).committed() == old(self).committed(),
    ;

    /// Get the data for the most recent snapshot.  The `version_id` is
    /// used to verify that the snapshot is for the correct version.
    fn get_snapshot_data(&mut self, client_id: u128, version_id: u128) -> (r: Result<
        Option<Vec<u8>>,
        StorageError,
    >)
        ensures
            final(self).model() == old(self).model(),
            final(self).written() == old(self).written(),
            final(self).committed() == old(self).committed(),
            snapshot_data_result_view(r) == get_snapshot_data_result(
                old(self).model(),
                client_id,
                version_id,
            ),
    ;

    /// Get a version, indexed by parent version identifier.
    fn get_version_by_parent(&mut self, client_id: u128, parent_version_id: u128) -> (r: Result<
        Option<Version>,
        StorageError,
    >)
        ensures
            final(self).model() == old(self).model(),
            final(self).written() == old(self).written(),
            final(self).committed() == old(self).committed(),
            r matches Ok(v) && version_option_view(v) == get_version_by_parent_at(
                old(self).model(),
                client_id,
                parent_version_id,
            ),
    ;

    /// Get a version, indexed by its own version identifier.
    fn get_version(&mut self, client_id: u128, version_id: u128) -> (r: Result<
        Option<Version>,
        StorageError,
    >)
        ensures
            final(self).model() == old(self).model(),
            final(self).written() == old(self).written(),
            final(self).committed() == old(self).committed(),
            r matches Ok(v) && version_option_view(v) == get_version_at(
                old(self).model(),
                client_id,
                version_id,
            ),
    ;

    /// Add a version: update `latest_version_id`, increment the
    /// snapshot's `versions_since` if a snapshot exists, and register
    /// the parent-to-child index entry.
    fn add_version(
        &mut self,
        client_id: u128,
        version_id: u128,
        parent_version_id: u128,
        history_segment: Vec<u8>,
    ) -> (r: Result<(), StorageError>)
        requires
            add_version_allowed(old(self).model(), client_id),
        ensures
            final(self).model() == add_version_model(
                old(self).model(),
                client_id,
                version_id,
                parent_version_id,
                history_segment@,
            ),
            r == add_version_result(old(self).model(), client_id),
            final(self).written() == (old(self).written() || r is Ok),
            final(self).committed() == old(self).committed(),
    ;

    /// Commit the changes made in the transaction.  It is an error to
    /// call this more than once.  It is safe to skip this call for
    /// read-only transactions.
    fn commit(&mut self) -> (r: Result<(), StorageError>)
        ensures
            final(self).model() == old(self).model(),
            final(self).written() == old(self).written(),
            final(self).committed(),
            r == (if old(self).committed() {
                Err::<(), StorageError>(StorageError::DoubleCommit)
            } else {
                Ok::<(), StorageError>(())
            }),
    ;
}

/// An object able to act as storage.  Most of the interesting behavior
/// is in the [`StorageTxn`] trait.
///
/// Beginning a transaction takes the backend over, giving the
/// transaction exclusive access to its state for the transaction's
/// entire lifetime; finalizing the transaction hands the backend back.
pub trait Storage: Sized + Send + Sync {
    /// The transaction handle this backend hands out.
    type Txn: StorageTxn;

    /// The abstract state currently committed in this backend.
    spec fn state(&self) -> Map<u128, ClientState>;

    /// Begin a transaction.
    fn txn(self) -> (t: Self::Txn)
        ensures
            t.model() == self.state(),
            !t.written(),
            !t.committed(),
    ;
}

} // verus!
