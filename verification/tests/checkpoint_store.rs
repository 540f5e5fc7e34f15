use recoverable_messaging::checkpoint_store::{Checkpoint, InMemoryCheckpointStore, Ownership};
use recoverable_messaging::error::ErrorKind;

#[test]
fn test_update_ownership() {
    let mut store = InMemoryCheckpointStore::new();
    let ownership = Ownership {
        fully_qualified_namespace: "namespace".to_string(),
        event_hub_name: "event_hub".to_string(),
        consumer_group: "consumer_group".to_string(),
        partition_id: "partition_id".to_string(),
        owner_id: Some("owner_id".to_string()),
        etag: Some("etag".into()),
        ..Default::default()
    };
    let result = store.update_ownership(&ownership);
    assert!(result.is_ok());
}

#[test]
fn test_update_ownership_invalid() {
    let mut store = InMemoryCheckpointStore::new();
    let ownership = Ownership {
        fully_qualified_namespace: "fqdn.servicebus.windows.net".to_string(),
        partition_id: "partition_id".to_string(),
        owner_id: Some("owner_id".to_string()),
        etag: Some("etag".into()),
        ..Default::default()
    };
    let result = store.update_ownership(&ownership);
    assert!(result.is_err());
    assert_eq!(result.unwrap_err().kind(), ErrorKind::Validation);
}

#[test]
fn test_update_checkpoint() {
    let mut store = InMemoryCheckpointStore::new();
    let checkpoint = Checkpoint {
        fully_qualified_namespace: "namespace".to_string(),
        event_hub_name: "event_hub".to_string(),
        consumer_group: "consumer_group".to_string(),
        partition_id: "partition_id".to_string(),
        ..Default::default()
    };
    let result = store.update_checkpoint(checkpoint);
    assert!(result.is_ok());
}

#[test]
fn test_list_checkpoints() {
    let mut store = InMemoryCheckpointStore::new();
    let checkpoint = Checkpoint {
        fully_qualified_namespace: "namespace".to_string(),
        event_hub_name: "event_hub".to_string(),
        consumer_group: "consumer_group".to_string(),
        partition_id: "partition_id".to_string(),
        ..Default::default()
    };
    store.update_checkpoint(checkpoint).unwrap();

    let checkpoints = store
        .list_checkpoints("namespace", "event_hub", "consumer_group")
        .unwrap();

    assert_eq!(checkpoints.len(), 1);
}

#[test]
fn checkpoints() {
    let test_name = format!("{}{}", "checkpoint", "8b6d1f0c");

    let mut checkpoint_store = InMemoryCheckpointStore::new();
    let checkpoints = checkpoint_store
        .list_checkpoints(
            "fully-qualified-namespace",
            "event-hub-name",
            "consumer-group",
        )
        .unwrap();
    assert_eq!(checkpoints.len(), 0);

    let checkpoint = Checkpoint {
        fully_qualified_namespace: "ns.servicebus.windows.net".to_string(),
        event_hub_name: "event-hub-name".to_string(),
        consumer_group: "consumer-group".to_string(),
        partition_id: test_name.clone(),
        offset: Some("offset".to_string()),
        sequence_number: Some(0),
    };

    // Even though we added a checkpoint in one namespace, it doesn't change the older namespace.
    checkpoint_store.update_checkpoint(checkpoint.clone()).unwrap();
    let checkpoints = checkpoint_store
        .list_checkpoints(
            "fully-qualified-namespace",
            "event-hub-name",
            "consumer-group",
        )
        .unwrap();
    assert_eq!(checkpoints.len(), 0);

    let checkpoints = checkpoint_store.list_checkpoints(
        "ns.servicebus.windows.net",
        "event-hub-name",
        "consumer-group",
    );
    assert!(checkpoints.is_ok());
    let checkpoints = checkpoints.unwrap();
    assert_eq!(checkpoints.len(), 1);
    assert_eq!(checkpoints[0].partition_id, test_name.as_str());
    assert_eq!(checkpoints[0].offset, Some("offset".to_string()));
    assert_eq!(checkpoints[0].sequence_number, Some(0));
    assert_eq!(checkpoints[0].event_hub_name, "event-hub-name");
    assert_eq!(checkpoints[0].consumer_group, "consumer-group");
}

#[test]
fn update_ownership_empty_partition_is_validation_not_storage() {
    let mut store = InMemoryCheckpointStore::new();
    let ownership = Ownership {
        fully_qualified_namespace: "ns".to_string(),
        event_hub_name: "hub".to_string(),
        consumer_group: "group".to_string(),
        partition_id: String::new(),
        owner_id: Some("owner".to_string()),
        ..Default::default()
    };
    let result = store.update_ownership(&ownership);
    assert!(result.is_err());
    assert_eq!(result.unwrap_err().kind(), ErrorKind::Validation);
    // The failed write left nothing behind.
    let listed = store.list_ownership("ns", "hub", "group").unwrap();
    assert_eq!(listed.len(), 0);
}

#[test]
fn list_ownership_of_untouched_triple_is_empty() {
    let store = InMemoryCheckpointStore::new();
    let listed = store.list_ownership("nowhere", "nothing", "nobody");
    assert!(listed.is_ok());
    assert_eq!(listed.unwrap().len(), 0);
}

#[test]
fn update_ownership_returns_fresh_etag_and_stamp() {
    let mut store = InMemoryCheckpointStore::new();
    let ownership = Ownership {
        fully_qualified_namespace: "ns".to_string(),
        event_hub_name: "hub".to_string(),
        consumer_group: "group".to_string(),
        partition_id: "0".to_string(),
        owner_id: Some("owner-a".to_string()),
        ..Default::default()
    };
    let first = store.update_ownership(&ownership).unwrap();
    assert_eq!(first.etag, Some("0".to_string()));
    assert_eq!(first.last_modified_time, Some(0));
    assert_eq!(first.owner_id, Some("owner-a".to_string()));

    // A second write for the same key replaces the record and issues a
    // different etag; the store still holds one record for the key.
    let second = store.update_ownership(&ownership).unwrap();
    assert_eq!(second.etag, Some("1".to_string()));
    assert_eq!(second.last_modified_time, Some(1));
    let listed = store.list_ownership("ns", "hub", "group").unwrap();
    assert_eq!(listed.len(), 1);
    assert_eq!(listed[0].etag, Some("1".to_string()));
}

#[test]
fn list_ownership_keeps_insertion_order() {
    let mut store = InMemoryCheckpointStore::new();
    for partition in ["2", "0", "1"] {
        let ownership = Ownership {
            fully_qualified_namespace: "ns".to_string(),
            event_hub_name: "hub".to_string(),
            consumer_group: "group".to_string(),
            partition_id: partition.to_string(),
            owner_id: Some("owner".to_string()),
            ..Default::default()
        };
        store.update_ownership(&ownership).unwrap();
    }
    let listed = store.list_ownership("ns", "hub", "group").unwrap();
    let partitions: Vec<&str> = listed.iter().map(|o| o.partition_id.as_str()).collect();
    assert_eq!(partitions, vec!["2", "0", "1"]);
}

#[test]
fn checkpoint_same_partition_different_event_hub_is_isolated() {
    // The same partition id under two entities: each listing sees only its
    // own triple's record.
    let mut store = InMemoryCheckpointStore::new();
    let write = Checkpoint {
        fully_qualified_namespace: "ns".to_string(),
        event_hub_name: "hub-a".to_string(),
        consumer_group: "group".to_string(),
        partition_id: "7".to_string(),
        offset: Some("100".to_string()),
        sequence_number: Some(5),
    };
    store.update_checkpoint(write).unwrap();

    let other = store.list_checkpoints("ns", "hub-b", "group").unwrap();
    assert_eq!(other.len(), 0);
    let own = store.list_checkpoints("ns", "hub-a", "group").unwrap();
    assert_eq!(own.len(), 1);
    assert_eq!(own[0].partition_id, "7");
}

#[test]
fn update_checkpoint_replaces_full_record() {
    let mut store = InMemoryCheckpointStore::new();
    let first = Checkpoint {
        fully_qualified_namespace: "ns".to_string(),
        event_hub_name: "hub".to_string(),
        consumer_group: "group".to_string(),
        partition_id: "3".to_string(),
        offset: Some("10".to_string()),
        sequence_number: Some(1),
    };
    store.update_checkpoint(first).unwrap();
    let second = Checkpoint {
        fully_qualified_namespace: "ns".to_string(),
        event_hub_name: "hub".to_string(),
        consumer_group: "group".to_string(),
        partition_id: "3".to_string(),
        offset: None,
        sequence_number: Some(2),
    };
    store.update_checkpoint(second).unwrap();

    let listed = store.list_checkpoints("ns", "hub", "group").unwrap();
    assert_eq!(listed.len(), 1);
    assert_eq!(listed[0].offset, None);
    assert_eq!(listed[0].sequence_number, Some(2));
}

#[test]
fn update_checkpoint_missing_fields_is_validation_error() {
    let mut store = InMemoryCheckpointStore::new();
    let checkpoint = Checkpoint {
        fully_qualified_namespace: "ns".to_string(),
        ..Default::default()
    };
    let result = store.update_checkpoint(checkpoint);
    assert!(result.is_err());
    assert_eq!(result.unwrap_err().kind(), ErrorKind::Validation);
}
