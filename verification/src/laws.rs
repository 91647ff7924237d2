//! The guarantees the storage contract makes to its callers, proved once
//! over the abstract state that every operation's contract is pinned to.
//!
//! Each law is stated over the transition functions of [`crate::storage`],
//! so it holds of any backend whose operations meet the [`crate::storage::StorageTxn`]
//! contract.  Sequential consistency itself is not restated here: a
//! transaction starts from the backend's current state (`Storage::txn`),
//! every operation's effect on that state is pinned exactly, and only a
//! finalized transaction hands a state back — so two committed
//! transactions observe each other exactly as if run back to back, by
//! the contracts alone.

use vstd::prelude::*;

use crate::storage::{
    add_version_model, add_version_result, bumped_snapshot, Client, ClientState, get_client_at,
    get_snapshot_data_result, get_version_at, get_version_by_parent_at, new_client_model,
    new_client_result, set_snapshot_model, Snapshot, StorageError, VersionModel,
};

verus! {

/// A client identifier that was never created reads as absent: it is
/// absent from the empty state, creating a different client does not
/// make it present, and no snapshot or version operation — on it or on
/// any other client — ever creates it.
pub proof fn lemma_never_created_client_absent(
    m: Map<u128, ClientState>,
    client_id: u128,
    target: u128,
    version_id: u128,
    parent_version_id: u128,
    snapshot: Snapshot,
    data: Seq<u8>,
)
    requires
        !m.contains_key(client_id),
    ensures
        get_client_at(Map::<u128, ClientState>::empty(), client_id) == None::<Client>,
        get_client_at(m, client_id) == None::<Client>,
        target != client_id ==> get_client_at(
            new_client_model(m, target, version_id),
            client_id,
        ) == None::<Client>,
        get_client_at(set_snapshot_model(m, target, snapshot, data), client_id) == None::<Client>,
        get_client_at(
            add_version_model(m, target, version_id, parent_version_id, data),
            client_id,
        ) == None::<Client>,
{
}

/// After `new_client(c, v0)`, `get_client(c)` returns exactly
/// `latest_version_id == v0` with no snapshot — and a second
/// `new_client(c, _)` fails with `ClientAlreadyExists`, whatever
/// version identifier it carries.
pub proof fn lemma_new_client_visible_once(
    m: Map<u128, ClientState>,
    client_id: u128,
    latest_version_id: u128,
)
    requires
        !m.contains_key(client_id),
    ensures
        get_client_at(new_client_model(m, client_id, latest_version_id), client_id) == Some(
            Client { latest_version_id, snapshot: None },
        ),
        new_client_result(new_client_model(m, client_id, latest_version_id), client_id) == Err::<
            (),
            StorageError,
        >(StorageError::ClientAlreadyExists),
{
}

/// `add_version` on a client that does not exist fails with
/// `ClientNotFound` and changes nothing.
pub proof fn lemma_add_version_unknown_client(
    m: Map<u128, ClientState>,
    client_id: u128,
    version_id: u128,
    parent_version_id: u128,
    data: Seq<u8>,
)
    requires
        !m.contains_key(client_id),
    ensures
        add_version_result(m, client_id) == Err::<(), StorageError>(StorageError::ClientNotFound),
        add_version_model(m, client_id, version_id, parent_version_id, data) == m,
{
}

/// After `new_client(c, v0)` then `add_version(c, v1, v0, data)`: the
/// latest version is `v1`, and both the lookup by parent `v0` and the
/// direct lookup by `v1` return the record just added.
pub proof fn lemma_add_version_lookups(
    m: Map<u128, ClientState>,
    client_id: u128,
    v0: u128,
    v1: u128,
    data: Seq<u8>,
)
    requires
        !m.contains_key(client_id),
    ensures
        ({
            let m2 = add_version_model(new_client_model(m, client_id, v0), client_id, v1, v0, data);
            let record = (VersionModel {
                version_id: v1,
                parent_version_id: v0,
                history_segment: data,
            });
            &&& get_client_at(m2, client_id) == Some(Client { latest_version_id: v1, snapshot: None })
            &&& get_version_by_parent_at(m2, client_id, v0) == Some(record)
            &&& get_version_at(m2, client_id, v1) == Some(record)
        }),
{
}

/// If a snapshot with `versions_since == n` exists, `add_version` makes
/// the stored snapshot's count exactly `n + 1` and touches nothing else
/// about it; if no snapshot exists, nothing snapshot-related changes.
pub proof fn lemma_add_version_snapshot_count(
    m: Map<u128, ClientState>,
    client_id: u128,
    version_id: u128,
    parent_version_id: u128,
    data: Seq<u8>,
)
    requires
        m.contains_key(client_id),
        forall|snap: Snapshot|
            m[client_id].client.snapshot == Some(snap) ==> snap.versions_since < u32::MAX,
    ensures
        ({
            let after = add_version_model(m, client_id, version_id, parent_version_id, data);
            &&& after[client_id].client.snapshot == bumped_snapshot(m[client_id].client.snapshot)
            &&& forall|snap: Snapshot|
                m[client_id].client.snapshot == Some(snap)
                    ==> after[client_id].client.snapshot == Some(
                    Snapshot {
                        version_id: snap.version_id,
                        timestamp: snap.timestamp,
                        versions_since: (snap.versions_since + 1) as u32,
                    },
                ) && snap.versions_since + 1 <= u32::MAX
            &&& m[client_id].client.snapshot is None ==> after[client_id].client.snapshot is None
            &&& after[client_id].snapshot_data == m[client_id].snapshot_data
        }),
{
}

/// A client's snapshot metadata and payload travel together.
pub open spec fn snapshot_has_payload(m: Map<u128, ClientState>) -> bool {
    forall|c: u128|
        m.contains_key(c) && #[trigger] m[c].client.snapshot is Some ==> m[c].snapshot_data is Some
}

/// Snapshot metadata never exists without payload bytes: the empty
/// state has neither, `set_snapshot` stores both together, and no other
/// operation touches either — so once a snapshot exists, a matching
/// `get_snapshot_data` cannot find the payload absent.
pub proof fn lemma_snapshot_payload_invariant(
    m: Map<u128, ClientState>,
    client_id: u128,
    version_id: u128,
    parent_version_id: u128,
    snapshot: Snapshot,
    data: Seq<u8>,
)
    requires
        snapshot_has_payload(m),
    ensures
        snapshot_has_payload(Map::<u128, ClientState>::empty()),
        snapshot_has_payload(new_client_model(m, client_id, version_id)),
        snapshot_has_payload(set_snapshot_model(m, client_id, snapshot, data)),
        snapshot_has_payload(
            add_version_model(m, client_id, version_id, parent_version_id, data),
        ),
{
}

/// After `set_snapshot(c, {version_id: v, versions_since: 0, timestamp: t}, payload)`:
/// `get_snapshot_data(c, v)` returns the payload, and `get_snapshot_data(c, v')`
/// for any `v' != v` fails with `SnapshotMismatch`.
pub proof fn lemma_set_snapshot_then_read(
    m: Map<u128, ClientState>,
    client_id: u128,
    version_id: u128,
    timestamp: i64,
    payload: Seq<u8>,
    other_version: u128,
)
    requires
        m.contains_key(client_id),
        other_version != version_id,
    ensures
        ({
            let m2 = set_snapshot_model(
                m,
                client_id,
                Snapshot { version_id, timestamp, versions_since: 0 },
                payload,
            );
            &&& get_snapshot_data_result(m2, client_id, version_id) == Ok::<
                Option<Seq<u8>>,
                StorageError,
            >(Some(payload))
            &&& get_snapshot_data_result(m2, client_id, other_version) == Err::<
                Option<Seq<u8>>,
                StorageError,
            >(StorageError::SnapshotMismatch)
        }),
{
}

} // verus!
