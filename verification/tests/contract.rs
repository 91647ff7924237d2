use chrono::Utc;
use sync_storage::inmemory::InMemoryStorage;
use sync_storage::storage::{Snapshot, Storage, StorageError, StorageTxn, NIL_VERSION_ID};
use uuid::Uuid;

#[test]
fn never_created_client_is_absent() {
    let storage = InMemoryStorage::new();
    let mut txn = storage.txn();
    let absent_id = Uuid::new_v4().as_u128();

    // other clients and their histories do not make `absent_id` present
    let other = Uuid::new_v4().as_u128();
    txn.new_client(other, NIL_VERSION_ID).unwrap();
    txn.add_version(other, Uuid::new_v4().as_u128(), NIL_VERSION_ID, vec![1])
        .unwrap();
    assert!(txn.get_client(absent_id).unwrap().is_none());

    txn.commit().unwrap();
    txn.finish().unwrap();
}

#[test]
fn duplicate_client_creation_fails() {
    let storage = InMemoryStorage::new();
    let mut txn = storage.txn();
    let client_id = Uuid::new_v4().as_u128();
    let v0 = Uuid::new_v4().as_u128();

    txn.new_client(client_id, v0).unwrap();
    let client = txn.get_client(client_id).unwrap().unwrap();
    assert_eq!(client.latest_version_id, v0);
    assert!(client.snapshot.is_none());

    let err = txn.new_client(client_id, Uuid::new_v4().as_u128()).unwrap_err();
    assert_eq!(err, StorageError::ClientAlreadyExists);

    txn.commit().unwrap();
    txn.finish().unwrap();
}

#[test]
fn add_version_unknown_client_fails() {
    let storage = InMemoryStorage::new();
    let mut txn = storage.txn();
    let err = txn
        .add_version(
            Uuid::new_v4().as_u128(),
            Uuid::new_v4().as_u128(),
            NIL_VERSION_ID,
            vec![1, 2, 3],
        )
        .unwrap_err();
    assert_eq!(err, StorageError::ClientNotFound);
    txn.finish().unwrap();
}

#[test]
fn set_snapshot_unknown_client_fails() {
    let storage = InMemoryStorage::new();
    let mut txn = storage.txn();
    let snap = Snapshot {
        version_id: Uuid::new_v4().as_u128(),
        timestamp: Utc::now().timestamp_millis(),
        versions_since: 0,
    };
    let err = txn
        .set_snapshot(Uuid::new_v4().as_u128(), snap, vec![1])
        .unwrap_err();
    assert_eq!(err, StorageError::ClientNotFound);
    txn.finish().unwrap();
}

#[test]
fn get_snapshot_data_unknown_client_fails() {
    let storage = InMemoryStorage::new();
    let mut txn = storage.txn();
    let err = txn
        .get_snapshot_data(Uuid::new_v4().as_u128(), Uuid::new_v4().as_u128())
        .unwrap_err();
    assert_eq!(err, StorageError::ClientNotFound);
}

#[test]
fn get_snapshot_data_without_snapshot_is_mismatch() {
    let storage = InMemoryStorage::new();
    let mut txn = storage.txn();
    let client_id = Uuid::new_v4().as_u128();
    txn.new_client(client_id, NIL_VERSION_ID).unwrap();
    let err = txn
        .get_snapshot_data(client_id, NIL_VERSION_ID)
        .unwrap_err();
    assert_eq!(err, StorageError::SnapshotMismatch);
    txn.commit().unwrap();
    txn.finish().unwrap();
}

#[test]
fn add_version_increments_versions_since() {
    let storage = InMemoryStorage::new();
    let mut txn = storage.txn();
    let client_id = Uuid::new_v4().as_u128();
    let v1 = Uuid::new_v4().as_u128();

    txn.new_client(client_id, v1).unwrap();
    let snap = Snapshot {
        version_id: v1,
        timestamp: Utc::now().timestamp_millis(),
        versions_since: 3,
    };
    txn.set_snapshot(client_id, snap, vec![7]).unwrap();

    let v2 = Uuid::new_v4().as_u128();
    txn.add_version(client_id, v2, v1, vec![2]).unwrap();

    let stored = txn.get_client(client_id).unwrap().unwrap().snapshot.unwrap();
    assert_eq!(stored.versions_since, 4);
    assert_eq!(stored.version_id, snap.version_id);
    assert_eq!(stored.timestamp, snap.timestamp);

    txn.commit().unwrap();
    txn.finish().unwrap();
}

#[test]
fn add_version_without_snapshot_changes_nothing_snapshot_related() {
    let storage = InMemoryStorage::new();
    let mut txn = storage.txn();
    let client_id = Uuid::new_v4().as_u128();
    txn.new_client(client_id, NIL_VERSION_ID).unwrap();
    txn.add_version(client_id, Uuid::new_v4().as_u128(), NIL_VERSION_ID, vec![5])
        .unwrap();
    assert!(txn.get_client(client_id).unwrap().unwrap().snapshot.is_none());
    txn.commit().unwrap();
    txn.finish().unwrap();
}

#[test]
fn snapshot_roundtrip_and_mismatch() {
    let storage = InMemoryStorage::new();
    let mut txn = storage.txn();
    let client_id = Uuid::new_v4().as_u128();
    let v = Uuid::new_v4().as_u128();

    txn.new_client(client_id, v).unwrap();
    let snap = Snapshot {
        version_id: v,
        timestamp: Utc::now().timestamp_millis(),
        versions_since: 0,
    };
    txn.set_snapshot(client_id, snap, b"payload".to_vec()).unwrap();

    assert_eq!(
        txn.get_snapshot_data(client_id, v).unwrap().unwrap(),
        b"payload".to_vec()
    );
    let other = Uuid::new_v4().as_u128();
    assert_ne!(other, v);
    let err = txn.get_snapshot_data(client_id, other).unwrap_err();
    assert_eq!(err, StorageError::SnapshotMismatch);

    txn.commit().unwrap();
    txn.finish().unwrap();
}

#[test]
fn committed_transactions_observe_each_other() {
    let storage = InMemoryStorage::new();
    let client_id = Uuid::new_v4().as_u128();
    let v0 = Uuid::new_v4().as_u128();

    let mut txn1 = storage.txn();
    txn1.new_client(client_id, v0).unwrap();
    txn1.commit().unwrap();
    let storage = txn1.finish().unwrap();

    let mut txn2 = storage.txn();
    let client = txn2.get_client(client_id).unwrap().unwrap();
    assert_eq!(client.latest_version_id, v0);

    let v1 = Uuid::new_v4().as_u128();
    txn2.add_version(client_id, v1, v0, vec![1]).unwrap();
    txn2.commit().unwrap();
    let storage = txn2.finish().unwrap();

    let mut txn3 = storage.txn();
    assert_eq!(
        txn3.get_client(client_id).unwrap().unwrap().latest_version_id,
        v1
    );
    txn3.finish().unwrap();
}

#[test]
fn read_only_transaction_finalizes_without_commit() {
    let storage = InMemoryStorage::new();
    let mut txn = storage.txn();
    assert!(txn.get_client(Uuid::new_v4().as_u128()).unwrap().is_none());
    assert!(!txn.was_written());
    assert!(!txn.was_committed());
    let storage = txn.finish().unwrap();

    // dropping a read-only transaction outright is not an error either
    let mut txn = storage.txn();
    let _ = txn.get_client(Uuid::new_v4().as_u128()).unwrap();
    drop(txn);
}

#[test]
fn unfinalized_write_transaction_is_refused() {
    let storage = InMemoryStorage::new();
    let mut txn = storage.txn();
    txn.new_client(Uuid::new_v4().as_u128(), NIL_VERSION_ID).unwrap();
    assert!(txn.was_written());
    let err = match txn.finish() {
        Err(e) => e,
        Ok(_) => panic!("a written, uncommitted transaction must be refused"),
    };
    assert_eq!(err, StorageError::UnfinalizedWriteTransaction);
}

#[test]
fn double_commit_fails() {
    let storage = InMemoryStorage::new();
    let mut txn = storage.txn();
    txn.new_client(Uuid::new_v4().as_u128(), NIL_VERSION_ID).unwrap();
    txn.commit().unwrap();
    let err = txn.commit().unwrap_err();
    assert_eq!(err, StorageError::DoubleCommit);
    // the first commit still counts: the transaction finalizes cleanly
    txn.finish().unwrap();
}

#[test]
fn second_child_overwrites_parent_index_entry() {
    let storage = InMemoryStorage::new();
    let mut txn = storage.txn();
    let client_id = Uuid::new_v4().as_u128();
    let parent = Uuid::new_v4().as_u128();
    let child1 = Uuid::new_v4().as_u128();
    let child2 = Uuid::new_v4().as_u128();

    txn.new_client(client_id, parent).unwrap();
    txn.add_version(client_id, child1, parent, vec![1]).unwrap();
    txn.add_version(client_id, child2, parent, vec![2]).unwrap();

    let found = txn.get_version_by_parent(client_id, parent).unwrap().unwrap();
    assert_eq!(found.version_id, child2);
    // the earlier child is still reachable by its own identifier
    assert_eq!(
        txn.get_version(client_id, child1).unwrap().unwrap().version_id,
        child1
    );

    txn.commit().unwrap();
    txn.finish().unwrap();
}

#[test]
fn end_to_end_scenario() {
    let storage = InMemoryStorage::new();
    let mut txn = storage.txn();
    let c1 = Uuid::new_v4().as_u128();
    let v1 = Uuid::new_v4().as_u128();
    let v2 = Uuid::new_v4().as_u128();
    let ts = Utc::now().timestamp_millis();

    txn.new_client(c1, NIL_VERSION_ID).unwrap();
    txn.add_version(c1, v1, NIL_VERSION_ID, b"abc".to_vec()).unwrap();
    assert_eq!(txn.get_client(c1).unwrap().unwrap().latest_version_id, v1);

    let snap = Snapshot {
        version_id: v1,
        timestamp: ts,
        versions_since: 0,
    };
    txn.set_snapshot(c1, snap, b"snap1".to_vec()).unwrap();
    txn.add_version(c1, v2, v1, b"def".to_vec()).unwrap();

    let stored = txn.get_client(c1).unwrap().unwrap().snapshot.unwrap();
    assert_eq!(stored.versions_since, 1);
    assert_eq!(
        txn.get_snapshot_data(c1, v1).unwrap().unwrap(),
        b"snap1".to_vec()
    );
    assert_eq!(
        txn.get_snapshot_data(c1, v2).unwrap_err(),
        StorageError::SnapshotMismatch
    );

    txn.commit().unwrap();
    txn.finish().unwrap();
}
