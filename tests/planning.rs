use indexmap::IndexMap;
use kafka_connector::addr::KafkaResourceAddress;
use kafka_connector::op::{KafkaConnectorOp, PlanElement};
use kafka_connector::plan::{plan, PlanError, SnapshotSide};
use kafka_connector::resource::{
    KafkaAcl, KafkaAclOperation, KafkaAclPermission, KafkaPrincipal, KafkaPrincipalType,
    KafkaQuota, KafkaQuotaEntity, KafkaQuotaEntityType, KafkaResource, KafkaResourceType,
    KafkaTopic, KindMismatch, ResourceKind,
};

fn topic_addr() -> KafkaResourceAddress {
    KafkaResourceAddress::Topic { cluster: "prod".to_string(), topic: "orders".to_string() }
}

fn acl_addr() -> KafkaResourceAddress {
    KafkaResourceAddress::Acl { cluster: "prod".to_string(), acl_id: "readers".to_string() }
}

fn quota_addr() -> KafkaResourceAddress {
    KafkaResourceAddress::Quota { cluster: "prod".to_string(), quota_id: "q".to_string() }
}

fn config(pairs: &[(&str, &str)]) -> IndexMap<String, String> {
    let mut m = IndexMap::new();
    for (k, v) in pairs {
        m.insert(k.to_string(), v.to_string());
    }
    m
}

fn topic(partitions: i32, replication_factor: i16, pairs: &[(&str, &str)]) -> KafkaTopic {
    KafkaTopic { partitions, replication_factor, config: config(pairs) }
}

fn some_topic(t: KafkaTopic) -> Option<Result<KafkaResource, String>> {
    Some(Ok(KafkaResource::Topic(t)))
}

fn acl(name: &str, operation: KafkaAclOperation) -> KafkaAcl {
    KafkaAcl {
        resource_type: KafkaResourceType::Topic,
        resource_name: name.to_string(),
        pattern_type: kafka_connector::resource::KafkaResourcePatternType::Literal,
        principal: KafkaPrincipal { principal_type: KafkaPrincipalType::User, name: "alice".to_string() },
        host: "*".to_string(),
        operation,
        permission: KafkaAclPermission::Allow,
    }
}

fn quota(rate: Option<f64>) -> KafkaQuota {
    KafkaQuota {
        entities: vec![KafkaQuotaEntity { entity_type: KafkaQuotaEntityType::User, name: "bob".to_string() }],
        producer_byte_rate: rate.map(f64::to_bits),
        consumer_byte_rate: None,
        request_percentage: Some(12.5f64.to_bits()),
    }
}

fn ops(r: Result<Vec<PlanElement>, PlanError>) -> Vec<KafkaConnectorOp> {
    r.expect("plan").into_iter().map(|e| e.op).collect()
}

#[test]
fn topic_partitions_three_to_five() {
    let r = plan(&topic_addr(), some_topic(topic(3, 2, &[])), some_topic(topic(5, 2, &[])));
    let v = r.expect("plan");
    assert_eq!(v.len(), 1);
    assert_eq!(v[0].op, KafkaConnectorOp::UpdateTopicPartitions { partitions: 5 });
    assert_eq!(v[0].description, "Increase partitions from 3 to 5");
}

#[test]
fn topic_partitions_five_to_three_is_rejected() {
    let r = plan(&topic_addr(), some_topic(topic(5, 2, &[])), some_topic(topic(3, 2, &[])));
    assert_eq!(r, Err(PlanError::UnsupportedTransition { from: 5, to: 3 }));
}

#[test]
fn topic_replication_two_to_three_is_rejected() {
    let r = plan(&topic_addr(), some_topic(topic(3, 2, &[])), some_topic(topic(3, 3, &[])));
    assert_eq!(r, Err(PlanError::ImmutableFieldViolation { from: 2, to: 3 }));
}

#[test]
fn topic_replication_change_rejected_even_with_partition_increase() {
    let r = plan(&topic_addr(), some_topic(topic(3, 2, &[])), some_topic(topic(6, 3, &[])));
    assert_eq!(r, Err(PlanError::ImmutableFieldViolation { from: 2, to: 3 }));
}

#[test]
fn topic_config_change_carries_whole_map() {
    let r = plan(
        &topic_addr(),
        some_topic(topic(3, 2, &[("retention.ms", "1000")])),
        some_topic(topic(3, 2, &[("retention.ms", "2000")])),
    );
    let v = r.expect("plan");
    assert_eq!(v.len(), 1);
    assert_eq!(v[0].op, KafkaConnectorOp::UpdateTopicConfig { config: config(&[("retention.ms", "2000")]) });
    assert_eq!(v[0].description, "Update topic configuration");
}

#[test]
fn topic_config_order_does_not_matter() {
    let r = plan(
        &topic_addr(),
        some_topic(topic(3, 2, &[("a", "1"), ("b", "2")])),
        some_topic(topic(3, 2, &[("b", "2"), ("a", "1")])),
    );
    assert_eq!(ops(r), vec![]);
}

#[test]
fn topic_partitions_and_config_both_change() {
    let r = plan(
        &topic_addr(),
        some_topic(topic(3, 2, &[("a", "1")])),
        some_topic(topic(4, 2, &[("a", "2")])),
    );
    assert_eq!(
        ops(r),
        vec![
            KafkaConnectorOp::UpdateTopicPartitions { partitions: 4 },
            KafkaConnectorOp::UpdateTopicConfig { config: config(&[("a", "2")]) },
        ]
    );
}

#[test]
fn topic_create_from_absent() {
    let t = topic(3, 2, &[("retention.ms", "1000")]);
    let v = plan(&topic_addr(), None, some_topic(t.clone())).expect("plan");
    assert_eq!(v.len(), 1);
    assert_eq!(v[0].op, KafkaConnectorOp::CreateTopic(t));
    assert_eq!(v[0].description, "Create topic with 3 partitions and replication factor 2");
}

#[test]
fn topic_delete_ignores_unreadable_current() {
    let v = plan(&topic_addr(), Some(Err("bad".to_string())), None).expect("plan");
    assert_eq!(v.len(), 1);
    assert_eq!(v[0].op, KafkaConnectorOp::DeleteTopic);
    assert_eq!(v[0].description, "Delete topic");
}

#[test]
fn absent_to_absent_is_empty() {
    assert_eq!(ops(plan(&topic_addr(), None, None)), vec![]);
    assert_eq!(ops(plan(&acl_addr(), None, None)), vec![]);
    assert_eq!(ops(plan(&quota_addr(), None, None)), vec![]);
}

#[test]
fn unreadable_desired_fails() {
    let r = plan(&topic_addr(), None, Some(Err("missing field `partitions`".to_string())));
    assert_eq!(
        r,
        Err(PlanError::DeserializeFailure {
            side: SnapshotSide::Desired,
            detail: "missing field `partitions`".to_string()
        })
    );
}

#[test]
fn wrong_kind_fails() {
    let r = plan(&acl_addr(), Some(Ok(KafkaResource::Topic(topic(1, 1, &[])))), None);
    assert_eq!(
        r,
        Err(PlanError::KindMismatch {
            side: SnapshotSide::Current,
            mismatch: KindMismatch { expected: ResourceKind::Acl, found: ResourceKind::Topic },
        })
    );
}

#[test]
fn config_and_task_addresses_plan_nothing() {
    let t = some_topic(topic(1, 1, &[]));
    assert_eq!(ops(plan(&KafkaResourceAddress::Config, None, t)), vec![]);
}

#[test]
fn acl_change_is_delete_then_create() {
    let current = acl("orders", KafkaAclOperation::Read);
    let desired = acl("orders", KafkaAclOperation::Write);
    let v = plan(
        &acl_addr(),
        Some(Ok(KafkaResource::Acl(current.clone()))),
        Some(Ok(KafkaResource::Acl(desired.clone()))),
    )
    .expect("plan");
    assert_eq!(v.len(), 2);
    assert_eq!(v[0].op, KafkaConnectorOp::DeleteAcl(current));
    assert_eq!(v[0].description, "Delete old ACL");
    assert_eq!(v[1].op, KafkaConnectorOp::CreateAcl(desired));
    assert_eq!(v[1].description, "Create new ACL for User:alice on orders");
}

#[test]
fn acl_unchanged_is_empty() {
    let a = acl("orders", KafkaAclOperation::Read);
    let r = plan(&acl_addr(), Some(Ok(KafkaResource::Acl(a.clone()))), Some(Ok(KafkaResource::Acl(a))));
    assert_eq!(ops(r), vec![]);
}

#[test]
fn acl_create_and_delete() {
    let a = acl("orders", KafkaAclOperation::Read);
    let v = plan(&acl_addr(), None, Some(Ok(KafkaResource::Acl(a.clone())))).expect("plan");
    assert_eq!(v.len(), 1);
    assert_eq!(v[0].op, KafkaConnectorOp::CreateAcl(a.clone()));
    assert_eq!(v[0].description, "Create ACL for User:alice on orders");
    let v = plan(&acl_addr(), Some(Ok(KafkaResource::Acl(a.clone()))), None).expect("plan");
    assert_eq!(v.len(), 1);
    assert_eq!(v[0].op, KafkaConnectorOp::DeleteAcl(a));
}

#[test]
fn quota_unchanged_is_empty() {
    let r = plan(
        &quota_addr(),
        Some(Ok(KafkaResource::Quota(quota(Some(1024.0))))),
        Some(Ok(KafkaResource::Quota(quota(Some(1024.0))))),
    );
    assert_eq!(ops(r), vec![]);
}

#[test]
fn quota_unset_rate_differs_from_zero() {
    let r = plan(
        &quota_addr(),
        Some(Ok(KafkaResource::Quota(quota(None)))),
        Some(Ok(KafkaResource::Quota(quota(Some(0.0))))),
    );
    assert_eq!(ops(r), vec![KafkaConnectorOp::UpdateQuota(quota(Some(0.0)))]);
}

#[test]
fn quota_create_and_delete() {
    let v = plan(&quota_addr(), None, Some(Ok(KafkaResource::Quota(quota(None))))).expect("plan");
    assert_eq!(v.len(), 1);
    assert_eq!(v[0].op, KafkaConnectorOp::CreateQuota(quota(None)));
    assert_eq!(v[0].description, "Create quota");
    let v = plan(&quota_addr(), Some(Ok(KafkaResource::Quota(quota(None)))), None).expect("plan");
    assert_eq!(v[0].op, KafkaConnectorOp::DeleteQuota);
}

#[test]
fn plan_is_repeatable() {
    let a = plan(&topic_addr(), some_topic(topic(3, 2, &[("a", "1")])), some_topic(topic(4, 2, &[("a", "2")])));
    let b = plan(&topic_addr(), some_topic(topic(3, 2, &[("a", "1")])), some_topic(topic(4, 2, &[("a", "2")])));
    assert_eq!(a, b);
}

#[test]
fn defaults_and_conversions() {
    let t = KafkaTopic::default();
    assert_eq!((t.partitions, t.replication_factor, t.config.len()), (1, 1, 0));
    let a = KafkaAcl::default();
    assert_eq!(a.host, "*");
    assert_eq!(a.operation, KafkaAclOperation::All);
    assert!(KafkaQuota::default().entities.is_empty());
    let r = KafkaResource::Quota(KafkaQuota::default());
    assert_eq!(
        r.clone().into_topic(),
        Err(KindMismatch { expected: ResourceKind::Topic, found: ResourceKind::Quota })
    );
    assert_eq!(r.into_quota(), Ok(KafkaQuota::default()));
}

#[test]
fn do_plan_decodes_the_path() {
    let r = kafka_connector::plan::do_plan(
        "kafka/prod/topics/orders.ron",
        some_topic(topic(3, 2, &[])),
        some_topic(topic(5, 2, &[])),
    );
    assert_eq!(ops(r), vec![KafkaConnectorOp::UpdateTopicPartitions { partitions: 5 }]);
    let r = kafka_connector::plan::do_plan("kafka/prod/orders.ron", None, None);
    assert_eq!(r, Err(PlanError::InvalidAddress { path: "kafka/prod/orders.ron".to_string() }));
}

#[test]
fn per_kind_planners() {
    let t = topic(2, 1, &[]);
    let v = kafka_connector::plan::plan_topic(None, some_topic(t.clone())).expect("plan");
    assert_eq!(v[0].op, KafkaConnectorOp::CreateTopic(t));
    let q = quota(None);
    let v = kafka_connector::plan::plan_quota(Some(Ok(KafkaResource::Quota(q.clone()))), Some(Ok(KafkaResource::Quota(q))))
        .expect("plan");
    assert!(v.is_empty());
    let a = acl("x", KafkaAclOperation::Read);
    let v = kafka_connector::plan::plan_acl(None, Some(Ok(KafkaResource::Acl(a.clone())))).expect("plan");
    assert_eq!(v[0].op, KafkaConnectorOp::CreateAcl(a));
}

#[test]
fn decimal_forms() {
    assert_eq!(kafka_connector::text::decimal(0), "0");
    assert_eq!(kafka_connector::text::decimal(10), "10");
    assert_eq!(kafka_connector::text::decimal(-305), "-305");
    assert_eq!(kafka_connector::text::decimal(i64::MIN), i64::MIN.to_string());
    assert_eq!(kafka_connector::text::decimal(i64::MAX), i64::MAX.to_string());
    let v = plan(&topic_addr(), None, some_topic(topic(-1, 3, &[]))).expect("plan");
    assert_eq!(v[0].description, "Create topic with -1 partitions and replication factor 3");
}
