use kafka_connector::addr::KafkaResourceAddress;
use kafka_connector::connector::{
    cluster_subpath, filter_kind, listed_topic_paths, resource_skeletons, topic_from_description, DescribedEntry,
    FilterKind,
};
use kafka_connector::resource::{KafkaAcl, KafkaQuota, KafkaResource};

fn entry(name: &str, value: Option<&str>, read_only: bool, sensitive: bool) -> DescribedEntry {
    DescribedEntry {
        name: name.to_string(),
        value: value.map(|v| v.to_string()),
        is_read_only: read_only,
        is_sensitive: sensitive,
    }
}

#[test]
fn filter_classifies_paths() {
    assert_eq!(filter_kind("kafka/config.ron"), FilterKind::Config);
    assert_eq!(filter_kind("kafka/prod/topics/orders.ron"), FilterKind::Resource);
    assert_eq!(filter_kind("kafka/task.ron"), FilterKind::Resource);
    assert_eq!(filter_kind("kafka/prod/topics/orders"), FilterKind::NoMatch);
    assert_eq!(filter_kind("s3/bucket.ron"), FilterKind::NoMatch);
}

#[test]
fn cluster_subpaths() {
    assert_eq!(cluster_subpath("prod"), "kafka/prod");
}

#[test]
fn listing_skips_internal_topics() {
    let names: Vec<String> =
        ["orders", "__consumer_offsets", "_single", "payments"].iter().map(|s| s.to_string()).collect();
    assert_eq!(
        listed_topic_paths("prod", &names),
        vec![
            "kafka/prod/topics/orders.ron".to_string(),
            "kafka/prod/topics/_single.ron".to_string(),
            "kafka/prod/topics/payments.ron".to_string(),
        ]
    );
    assert!(listed_topic_paths("prod", &vec![]).is_empty());
}

#[test]
fn described_topic_keeps_declared_entries_in_name_order() {
    let entries = vec![
        entry("segment.bytes", Some("1024"), false, false),
        entry("retention.ms", Some("1000"), false, false),
        entry("broker.only", Some("x"), true, false),
        entry("secret", Some("s"), false, true),
        entry("cleanup.policy", None, false, false),
        entry("compression.type", Some("snappy"), false, false),
    ];
    let t = topic_from_description(&vec![3, 3, 2], entries);
    assert_eq!(t.partitions, 3);
    assert_eq!(t.replication_factor, 3);
    let keys: Vec<&str> = t.config.keys().map(|k| k.as_str()).collect();
    assert_eq!(keys, vec!["compression.type", "retention.ms", "segment.bytes"]);
    assert_eq!(t.config.get("retention.ms").map(|v| v.as_str()), Some("1000"));
}

#[test]
fn described_topic_without_partitions() {
    let t = topic_from_description(&vec![], vec![]);
    assert_eq!((t.partitions, t.replication_factor, t.config.len()), (0, 1, 0));
}

#[test]
fn skeletons_cover_each_kind() {
    let s = resource_skeletons();
    assert_eq!(s.len(), 3);
    assert_eq!(s[0].0.to_path(), "kafka/[cluster_name]/topics/[topic_name].ron");
    match &s[0].1 {
        KafkaResource::Topic(t) => {
            assert_eq!((t.partitions, t.replication_factor), (3, 2));
            let pairs: Vec<(&str, &str)> = t.config.iter().map(|(k, v)| (k.as_str(), v.as_str())).collect();
            assert_eq!(pairs, vec![("retention.ms", "604800000"), ("compression.type", "snappy")]);
        }
        other => panic!("unexpected {other:?}"),
    }
    assert_eq!(
        s[1],
        (
            KafkaResourceAddress::Acl { cluster: "[cluster_name]".to_string(), acl_id: "[acl_identifier]".to_string() },
            KafkaResource::Acl(KafkaAcl::default())
        )
    );
    assert_eq!(s[2].1, KafkaResource::Quota(KafkaQuota::default()));
}

#[test]
fn described_topic_keys_ascend_without_duplicates() {
    let entries = vec![
        entry("b", Some("2"), false, false),
        entry("a", Some("1"), false, false),
        entry("b", Some("3"), false, false),
        entry("B", Some("4"), false, false),
    ];
    let t = topic_from_description(&vec![1], entries);
    let keys: Vec<&str> = t.config.keys().map(|k| k.as_str()).collect();
    assert_eq!(keys, vec!["B", "a", "b"]);
}
