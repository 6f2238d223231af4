use kafka_connector::addr::{AddressError, KafkaResourceAddress, KafkaTask};

fn topic(cluster: &str, name: &str) -> KafkaResourceAddress {
    KafkaResourceAddress::Topic { cluster: cluster.to_string(), topic: name.to_string() }
}

fn invalid(path: &str) -> Result<KafkaResourceAddress, AddressError> {
    Err(AddressError::InvalidAddress { path: path.to_string() })
}

#[test]
fn encodes_each_kind() {
    assert_eq!(KafkaResourceAddress::Config.to_path(), "kafka/config.ron");
    assert_eq!(topic("prod", "orders").to_path(), "kafka/prod/topics/orders.ron");
    let acl = KafkaResourceAddress::Acl { cluster: "prod".to_string(), acl_id: "readers".to_string() };
    assert_eq!(acl.to_path(), "kafka/prod/acls/readers.ron");
    let quota = KafkaResourceAddress::Quota { cluster: "dev".to_string(), quota_id: "q1".to_string() };
    assert_eq!(quota.to_path(), "kafka/dev/quotas/q1.ron");
    let task = KafkaResourceAddress::Task { kind: KafkaTask { name: "x".to_string() } };
    assert_eq!(task.to_path(), "kafka/task.ron");
}

#[test]
fn decodes_each_kind() {
    assert_eq!(KafkaResourceAddress::from_path("kafka/config.ron"), Ok(KafkaResourceAddress::Config));
    assert_eq!(KafkaResourceAddress::from_path("kafka/prod/topics/orders.ron"), Ok(topic("prod", "orders")));
    assert_eq!(
        KafkaResourceAddress::from_path("kafka/prod/acls/readers.ron"),
        Ok(KafkaResourceAddress::Acl { cluster: "prod".to_string(), acl_id: "readers".to_string() })
    );
    assert_eq!(
        KafkaResourceAddress::from_path("kafka/dev/quotas/q1.ron"),
        Ok(KafkaResourceAddress::Quota { cluster: "dev".to_string(), quota_id: "q1".to_string() })
    );
    assert_eq!(
        KafkaResourceAddress::from_path("kafka/task.ron"),
        Ok(KafkaResourceAddress::Task { kind: KafkaTask { name: String::new() } })
    );
}

#[test]
fn round_trip_keeps_every_addressable_address() {
    let addresses = vec![
        KafkaResourceAddress::Config,
        topic("c", "t"),
        topic("cluster-1", "orders.v2"),
        topic("c", "name.ron"),
        KafkaResourceAddress::Acl { cluster: "c".to_string(), acl_id: "a b".to_string() },
        KafkaResourceAddress::Quota { cluster: "c".to_string(), quota_id: "".to_string() },
    ];
    for a in addresses {
        assert_eq!(KafkaResourceAddress::from_path(&a.to_path()), Ok(a));
    }
}

#[test]
fn rejects_malformed_paths() {
    for p in [
        "",
        "kafka",
        "kafka/prod/topics",
        "kafka/prod/topics/orders",
        "kafka/prod/topics/orders.json",
        "kafka/prod/topics/orders.ron/extra",
        "aws/prod/topics/orders.ron",
        "kafka//topics/orders.ron",
        "kafka/prod/streams/orders.ron",
        "kafka/config",
        "Kafka/config.ron",
        "kafka/prod/config.ron",
    ] {
        assert_eq!(KafkaResourceAddress::from_path(p), invalid(p), "path {p:?}");
    }
}

#[test]
fn suffix_is_stripped_once() {
    assert_eq!(KafkaResourceAddress::from_path("kafka/c/topics/x.ron.ron"), Ok(topic("c", "x.ron")));
    assert_eq!(KafkaResourceAddress::from_path("kafka/c/topics/.ron"), Ok(topic("c", "")));
}
