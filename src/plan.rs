//! The planner: compares the current and the desired state of one resource and
//! lists the changes that take the first to the second.
//!
//! Each side is a snapshot: absent (`None`), decoded (`Some(Ok(resource))`), or
//! present but unreadable (`Some(Err(detail))`, with the parser's message).

use vstd::prelude::*;

use crate::addr::{decode_spec, AddressError, KafkaResourceAddress};
use crate::op::{KafkaConnectorOp, PlanElement};
use crate::resource::{
    config_eq, config_entries, AclModel, KafkaAcl, KafkaPrincipalType, KafkaQuota, KafkaResource,
    KafkaTopic, KindMismatch, ResourceKind, kind_of_spec,
};
use crate::text::{decimal, int_text};

verus! {

/// Which of the two snapshots a planning error is about.
#[derive(Clone, Copy, Debug, PartialEq, Eq, Structural)]
pub enum SnapshotSide {
    Current,
    Desired,
}

/// Why no plan could be made. No partial plan is ever returned.
#[derive(Clone, Debug, PartialEq, Eq)]
pub enum PlanError {
    /// A snapshot could not be read as the address's kind of resource.
    DeserializeFailure { side: SnapshotSide, detail: String },
    /// A snapshot holds another kind of resource than the address stores.
    KindMismatch { side: SnapshotSide, mismatch: KindMismatch },
    /// The replication factor of an existing topic would change.
    ImmutableFieldViolation { from: i16, to: i16 },
    /// The partition count of an existing topic would go down.
    UnsupportedTransition { from: i32, to: i32 },
    /// The path names no address.
    InvalidAddress { path: String },
}

/// One resource state as handed to the planner.
pub type Snapshot = Option<Result<KafkaResource, String>>;

/// A plan step: the change and its description.
pub type Step = (KafkaConnectorOp, Seq<char>);

pub type PlanOutcome = Result<Seq<Step>, PlanError>;

pub open spec fn steps_of(v: Seq<PlanElement>) -> Seq<Step> {
    v.map_values(|e: PlanElement| (e.op, e.description@))
}

pub open spec fn topic_of(s: Result<KafkaResource, String>, side: SnapshotSide) -> Result<KafkaTopic, PlanError> {
    match s {
        Err(detail) => Err(PlanError::DeserializeFailure { side, detail }),
        Ok(KafkaResource::Topic(t)) => Ok(t),
        Ok(res) => Err(
            PlanError::KindMismatch {
                side,
                mismatch: KindMismatch { expected: ResourceKind::Topic, found: res.kind_spec() },
            },
        ),
    }
}

pub open spec fn acl_of(s: Result<KafkaResource, String>, side: SnapshotSide) -> Result<KafkaAcl, PlanError> {
    match s {
        Err(detail) => Err(PlanError::DeserializeFailure { side, detail }),
        Ok(KafkaResource::Acl(a)) => Ok(a),
        Ok(res) => Err(
            PlanError::KindMismatch {
                side,
                mismatch: KindMismatch { expected: ResourceKind::Acl, found: res.kind_spec() },
            },
        ),
    }
}

pub open spec fn quota_of(s: Result<KafkaResource, String>, side: SnapshotSide) -> Result<KafkaQuota, PlanError> {
    match s {
        Err(detail) => Err(PlanError::DeserializeFailure { side, detail }),
        Ok(KafkaResource::Quota(q)) => Ok(q),
        Ok(res) => Err(
            PlanError::KindMismatch {
                side,
                mismatch: KindMismatch { expected: ResourceKind::Quota, found: res.kind_spec() },
            },
        ),
    }
}

pub open spec fn create_topic_text(partitions: i32, replication_factor: i16) -> Seq<char> {
    "Create topic with "@ + int_text(partitions as int) + " partitions and replication factor "@
        + int_text(replication_factor as int)
}

pub open spec fn increase_partitions_text(from: i32, to: i32) -> Seq<char> {
    "Increase partitions from "@ + int_text(from as int) + " to "@ + int_text(to as int)
}

/// `<lead><User|Group>:<principal name> on <resource name>`
pub open spec fn acl_text(lead: Seq<char>, a: AclModel) -> Seq<char> {
    lead + (if a.principal.0 == KafkaPrincipalType::User {
        "User:"@
    } else {
        "Group:"@
    }) + a.principal.1 + " on "@ + a.resource_name
}

pub open spec fn partition_steps(c: KafkaTopic, d: KafkaTopic) -> Seq<Step> {
    if d.partitions > c.partitions {
        seq![
            (
                KafkaConnectorOp::UpdateTopicPartitions { partitions: d.partitions },
                increase_partitions_text(c.partitions, d.partitions),
            ),
        ]
    } else {
        seq![]
    }
}

pub open spec fn config_steps(c: KafkaTopic, d: KafkaTopic) -> Seq<Step> {
    if config_entries(c.config) != config_entries(d.config) {
        seq![(KafkaConnectorOp::UpdateTopicConfig { config: d.config }, "Update topic configuration"@)]
    } else {
        seq![]
    }
}

/// The changes from one existing topic to another.
pub open spec fn topic_update(c: KafkaTopic, d: KafkaTopic) -> PlanOutcome {
    if d.partitions < c.partitions {
        Err(PlanError::UnsupportedTransition { from: c.partitions, to: d.partitions })
    } else if d.replication_factor != c.replication_factor {
        Err(PlanError::ImmutableFieldViolation { from: c.replication_factor, to: d.replication_factor })
    } else {
        Ok(partition_steps(c, d) + config_steps(c, d))
    }
}

pub open spec fn plan_topic_spec(current: Snapshot, desired: Snapshot) -> PlanOutcome {
    match (current, desired) {
        (None, None) => Ok(seq![]),
        (None, Some(d)) => match topic_of(d, SnapshotSide::Desired) {
            Err(e) => Err(e),
            Ok(t) => Ok(
                seq![(KafkaConnectorOp::CreateTopic(t), create_topic_text(t.partitions, t.replication_factor))],
            ),
        },
        (Some(_), None) => Ok(seq![(KafkaConnectorOp::DeleteTopic, "Delete topic"@)]),
        (Some(c), Some(d)) => match topic_of(c, SnapshotSide::Current) {
            Err(e) => Err(e),
            Ok(ct) => match topic_of(d, SnapshotSide::Desired) {
                Err(e) => Err(e),
                Ok(dt) => topic_update(ct, dt),
            },
        },
    }
}

pub open spec fn plan_acl_spec(current: Snapshot, desired: Snapshot) -> PlanOutcome {
    match (current, desired) {
        (None, None) => Ok(seq![]),
        (None, Some(d)) => match acl_of(d, SnapshotSide::Desired) {
            Err(e) => Err(e),
            Ok(a) => Ok(seq![(KafkaConnectorOp::CreateAcl(a), acl_text("Create ACL for "@, a@))]),
        },
        (Some(c), None) => match acl_of(c, SnapshotSide::Current) {
            Err(e) => Err(e),
            Ok(a) => Ok(seq![(KafkaConnectorOp::DeleteAcl(a), "Delete ACL"@)]),
        },
        (Some(c), Some(d)) => match acl_of(c, SnapshotSide::Current) {
            Err(e) => Err(e),
            Ok(ca) => match acl_of(d, SnapshotSide::Desired) {
                Err(e) => Err(e),
                Ok(da) => if ca@ != da@ {
                    Ok(
                        seq![
                            (KafkaConnectorOp::DeleteAcl(ca), "Delete old ACL"@),
                            (KafkaConnectorOp::CreateAcl(da), acl_text("Create new ACL for "@, da@)),
                        ],
                    )
                } else {
                    Ok(seq![])
                },
            },
        },
    }
}

pub open spec fn plan_quota_spec(current: Snapshot, desired: Snapshot) -> PlanOutcome {
    match (current, desired) {
        (None, None) => Ok(seq![]),
        (None, Some(d)) => match quota_of(d, SnapshotSide::Desired) {
            Err(e) => Err(e),
            Ok(q) => Ok(seq![(KafkaConnectorOp::CreateQuota(q), "Create quota"@)]),
        },
        (Some(_), None) => Ok(seq![(KafkaConnectorOp::DeleteQuota, "Delete quota"@)]),
        (Some(c), Some(d)) => match quota_of(c, SnapshotSide::Current) {
            Err(e) => Err(e),
            Ok(cq) => match quota_of(d, SnapshotSide::Desired) {
                Err(e) => Err(e),
                Ok(dq) => if cq@ != dq@ {
                    Ok(seq![(KafkaConnectorOp::UpdateQuota(dq), "Update quota"@)])
                } else {
                    Ok(seq![])
                },
            },
        },
    }
}

/// The plan for the resource at `addr`. The configuration and task addresses
/// never yield changes.
pub open spec fn plan_spec(addr: KafkaResourceAddress, current: Snapshot, desired: Snapshot) -> PlanOutcome {
    match addr {
        KafkaResourceAddress::Topic { .. } => plan_topic_spec(current, desired),
        KafkaResourceAddress::Acl { .. } => plan_acl_spec(current, desired),
        KafkaResourceAddress::Quota { .. } => plan_quota_spec(current, desired),
        _ => Ok(seq![]),
    }
}

/// Whether an executable plan result is the outcome `o`.
pub open spec fn outcome_is(r: Result<Vec<PlanElement>, PlanError>, o: PlanOutcome) -> bool {
    match r {
        Ok(v) => o == Ok::<Seq<Step>, PlanError>(steps_of(v@)),
        Err(e) => o == Err::<Seq<Step>, PlanError>(e),
    }
}

fn read_topic(s: Result<KafkaResource, String>, side: SnapshotSide) -> (r: Result<KafkaTopic, PlanError>)
    ensures
        r == topic_of(s, side),
{
    match s {
        Err(detail) => Err(PlanError::DeserializeFailure { side, detail }),
        Ok(res) => match res.into_topic() {
            Ok(t) => Ok(t),
            Err(mismatch) => Err(PlanError::KindMismatch { side, mismatch }),
        },
    }
}

fn read_acl(s: Result<KafkaResource, String>, side: SnapshotSide) -> (r: Result<KafkaAcl, PlanError>)
    ensures
        r == acl_of(s, side),
{
    match s {
        Err(detail) => Err(PlanError::DeserializeFailure { side, detail }),
        Ok(res) => match res.into_acl() {
            Ok(a) => Ok(a),
            Err(mismatch) => Err(PlanError::KindMismatch { side, mismatch }),
        },
    }
}

fn read_quota(s: Result<KafkaResource, String>, side: SnapshotSide) -> (r: Result<KafkaQuota, PlanError>)
    ensures
        r == quota_of(s, side),
{
    match s {
        Err(detail) => Err(PlanError::DeserializeFailure { side, detail }),
        Ok(res) => match res.into_quota() {
            Ok(q) => Ok(q),
            Err(mismatch) => Err(PlanError::KindMismatch { side, mismatch }),
        },
    }
}

fn create_topic_description(partitions: i32, replication_factor: i16) -> (r: String)
    ensures
        r@ == create_topic_text(partitions, replication_factor),
{
    let mut s = String::from_str("Create topic with ");
    let p = decimal(partitions as i64);
    s.append(p.as_str());
    s.append(" partitions and replication factor ");
    let f = decimal(replication_factor as i64);
    s.append(f.as_str());
    s
}

fn increase_partitions_description(from: i32, to: i32) -> (r: String)
    ensures
        r@ == increase_partitions_text(from, to),
{
    let mut s = String::from_str("Increase partitions from ");
    let a = decimal(from as i64);
    s.append(a.as_str());
    s.append(" to ");
    let b = decimal(to as i64);
    s.append(b.as_str());
    s
}

fn acl_description(lead: &str, a: &KafkaAcl) -> (r: String)
    ensures
        r@ == acl_text(lead@, a@),
{
    let mut s = String::from_str(lead);
    match a.principal.principal_type {
        KafkaPrincipalType::User => s.append("User:"),
        KafkaPrincipalType::Group => s.append("Group:"),
    }
    s.append(a.principal.name.as_str());
    s.append(" on ");
    s.append(a.resource_name.as_str());
    s
}

fn element(op: KafkaConnectorOp, description: String) -> (r: PlanElement)
    ensures
        r.op == op,
        r.description == description,
{
    PlanElement { op, description }
}

/// The plan for a topic, from its current and desired snapshots.
pub fn plan_topic(current: Snapshot, desired: Snapshot) -> (r: Result<Vec<PlanElement>, PlanError>)
    ensures
        outcome_is(r, plan_topic_spec(current, desired)),
{
    let mut ops: Vec<PlanElement> = Vec::new();
    match (current, desired) {
        (None, None) => {
            assert(steps_of(ops@) =~= seq![]);
        },
        (None, Some(d)) => {
            let t = read_topic(d, SnapshotSide::Desired)?;
            let text = create_topic_description(t.partitions, t.replication_factor);
            ops.push(element(KafkaConnectorOp::CreateTopic(t), text));
            assert(steps_of(ops@) =~= seq![steps_of(ops@)[0]]);
        },
        (Some(_), None) => {
            ops.push(element(KafkaConnectorOp::DeleteTopic, String::from_str("Delete topic")));
            assert(steps_of(ops@) =~= seq![steps_of(ops@)[0]]);
        },
        (Some(c), Some(d)) => {
            let ct = read_topic(c, SnapshotSide::Current)?;
            let dt = read_topic(d, SnapshotSide::Desired)?;
            if dt.partitions < ct.partitions {
                return Err(PlanError::UnsupportedTransition { from: ct.partitions, to: dt.partitions });
            }
            if dt.replication_factor != ct.replication_factor {
                return Err(
                    PlanError::ImmutableFieldViolation {
                        from: ct.replication_factor,
                        to: dt.replication_factor,
                    },
                );
            }
            let ghost (gc, gd) = (ct, dt);
            if dt.partitions > ct.partitions {
                let text = increase_partitions_description(ct.partitions, dt.partitions);
                ops.push(
                    element(KafkaConnectorOp::UpdateTopicPartitions { partitions: dt.partitions }, text),
                );
            }
            assert(steps_of(ops@) =~= partition_steps(gc, gd));
            if !config_eq(&ct.config, &dt.config) {
                let ghost before = ops@;
                ops.push(
                    element(
                        KafkaConnectorOp::UpdateTopicConfig { config: dt.config },
                        String::from_str("Update topic configuration"),
                    ),
                );
                assert(steps_of(ops@) =~= steps_of(before) + config_steps(gc, gd));
            }
            assert(steps_of(ops@) =~= partition_steps(gc, gd) + config_steps(gc, gd));
        },
    }
    Ok(ops)
}

/// The plan for an ACL, from its current and desired snapshots.
pub fn plan_acl(current: Snapshot, desired: Snapshot) -> (r: Result<Vec<PlanElement>, PlanError>)
    ensures
        outcome_is(r, plan_acl_spec(current, desired)),
{
    let mut ops: Vec<PlanElement> = Vec::new();
    match (current, desired) {
        (None, None) => {
            assert(steps_of(ops@) =~= seq![]);
        },
        (None, Some(d)) => {
            let a = read_acl(d, SnapshotSide::Desired)?;
            let text = acl_description("Create ACL for ", &a);
            ops.push(element(KafkaConnectorOp::CreateAcl(a), text));
            assert(steps_of(ops@) =~= seq![steps_of(ops@)[0]]);
        },
        (Some(c), None) => {
            let a = read_acl(c, SnapshotSide::Current)?;
            ops.push(element(KafkaConnectorOp::DeleteAcl(a), String::from_str("Delete ACL")));
            assert(steps_of(ops@) =~= seq![steps_of(ops@)[0]]);
        },
        (Some(c), Some(d)) => {
            let ca = read_acl(c, SnapshotSide::Current)?;
            let da = read_acl(d, SnapshotSide::Desired)?;
            if ca != da {
                let text = acl_description("Create new ACL for ", &da);
                ops.push(element(KafkaConnectorOp::DeleteAcl(ca), String::from_str("Delete old ACL")));
                ops.push(element(KafkaConnectorOp::CreateAcl(da), text));
                assert(steps_of(ops@) =~= seq![steps_of(ops@)[0], steps_of(ops@)[1]]);
            } else {
                assert(steps_of(ops@) =~= seq![]);
            }
        },
    }
    Ok(ops)
}

/// The plan for a quota, from its current and desired snapshots.
pub fn plan_quota(current: Snapshot, desired: Snapshot) -> (r: Result<Vec<PlanElement>, PlanError>)
    ensures
        outcome_is(r, plan_quota_spec(current, desired)),
{
    let mut ops: Vec<PlanElement> = Vec::new();
    match (current, desired) {
        (None, None) => {
            assert(steps_of(ops@) =~= seq![]);
        },
        (None, Some(d)) => {
            let q = read_quota(d, SnapshotSide::Desired)?;
            ops.push(element(KafkaConnectorOp::CreateQuota(q), String::from_str("Create quota")));
            assert(steps_of(ops@) =~= seq![steps_of(ops@)[0]]);
        },
        (Some(_), None) => {
            ops.push(element(KafkaConnectorOp::DeleteQuota, String::from_str("Delete quota")));
            assert(steps_of(ops@) =~= seq![steps_of(ops@)[0]]);
        },
        (Some(c), Some(d)) => {
            let cq = read_quota(c, SnapshotSide::Current)?;
            let dq = read_quota(d, SnapshotSide::Desired)?;
            if cq != dq {
                ops.push(element(KafkaConnectorOp::UpdateQuota(dq), String::from_str("Update quota")));
                assert(steps_of(ops@) =~= seq![steps_of(ops@)[0]]);
            } else {
                assert(steps_of(ops@) =~= seq![]);
            }
        },
    }
    Ok(ops)
}

/// The ordered changes that take the resource at `addr` from `current` to `desired`,
/// or the reason why there is no such plan.
pub fn plan(addr: &KafkaResourceAddress, current: Snapshot, desired: Snapshot) -> (r: Result<
    Vec<PlanElement>,
    PlanError,
>)
    ensures
        outcome_is(r, plan_spec(*addr, current, desired)),
{
    match addr {
        KafkaResourceAddress::Topic { .. } => plan_topic(current, desired),
        KafkaResourceAddress::Acl { .. } => plan_acl(current, desired),
        KafkaResourceAddress::Quota { .. } => plan_quota(current, desired),
        _ => {
            let ops: Vec<PlanElement> = Vec::new();
            assert(steps_of(ops@) =~= seq![]);
            Ok(ops)
        },
    }
}

/// The plan for the resource at `path`: `InvalidAddress` when the path names no
/// address, else the plan for the address it names.
pub fn do_plan(path: &str, current: Snapshot, desired: Snapshot) -> (r: Result<Vec<PlanElement>, PlanError>)
    ensures
        decode_spec(path@) is None ==> (r matches Err(PlanError::InvalidAddress { path: p }) && p@
            == path@),
        decode_spec(path@) matches Some(m) ==> exists|a: KafkaResourceAddress|
            a@ == m && outcome_is(r, #[trigger] plan_spec(a, current, desired)),
{
    match KafkaResourceAddress::from_path(path) {
        Ok(addr) => {
            let r = plan(&addr, current, desired);
            assert(outcome_is(r, plan_spec(addr, current, desired)));
            r
        },
        Err(AddressError::InvalidAddress { path }) => Err(PlanError::InvalidAddress { path }),
    }
}

/// The snapshot of a decoded resource.
pub open spec fn decoded(r: KafkaResource) -> Snapshot {
    Some(Ok(r))
}

/// The change that creates `r`.
pub open spec fn create_op(r: KafkaResource) -> KafkaConnectorOp {
    match r {
        KafkaResource::Topic(t) => KafkaConnectorOp::CreateTopic(t),
        KafkaResource::Acl(a) => KafkaConnectorOp::CreateAcl(a),
        KafkaResource::Quota(q) => KafkaConnectorOp::CreateQuota(q),
    }
}

/// Planning is a function of its three inputs: the same address and the same
/// two snapshots always give the same steps in the same order, or the same error.
pub proof fn lemma_plan_deterministic(
    a1: KafkaResourceAddress,
    a2: KafkaResourceAddress,
    current: Snapshot,
    desired: Snapshot,
)
    requires
        a1@ == a2@,
    ensures
        plan_spec(a1, current, desired) == plan_spec(a2, current, desired),
{
}

/// Two plans made from the same snapshots, at addresses that are equal as
/// values, agree: both succeed with the same steps in the same order, or both
/// fail with the same error.
pub proof fn lemma_plan_results_agree(
    a1: KafkaResourceAddress,
    a2: KafkaResourceAddress,
    current: Snapshot,
    desired: Snapshot,
    r1: Result<Vec<PlanElement>, PlanError>,
    r2: Result<Vec<PlanElement>, PlanError>,
)
    requires
        a1@ == a2@,
        outcome_is(r1, plan_spec(a1, current, desired)),
        outcome_is(r2, plan_spec(a2, current, desired)),
    ensures
        match (r1, r2) {
            (Ok(v1), Ok(v2)) => steps_of(v1@) == steps_of(v2@),
            (Err(e1), Err(e2)) => e1 == e2,
            _ => false,
        },
{
    lemma_plan_deterministic(a1, a2, current, desired);
}

/// A topic whose partition count goes up, with replication factor and
/// configuration unchanged, gets exactly one step: raise the partitions.
pub proof fn lemma_topic_partitions_increase(addr: KafkaResourceAddress, c: KafkaTopic, d: KafkaTopic)
    requires
        addr is Topic,
        d.partitions > c.partitions,
        d.replication_factor == c.replication_factor,
        config_entries(d.config) == config_entries(c.config),
    ensures
        plan_spec(addr, decoded(KafkaResource::Topic(c)), decoded(KafkaResource::Topic(d))) == Ok::<
            Seq<Step>,
            PlanError,
        >(
            seq![
                (
                    KafkaConnectorOp::UpdateTopicPartitions { partitions: d.partitions },
                    increase_partitions_text(c.partitions, d.partitions),
                ),
            ],
        ),
{
    let steps = partition_steps(c, d) + config_steps(c, d);
    assert(steps =~= partition_steps(c, d));
}

/// A topic whose partition count would go down gets no plan at all.
pub proof fn lemma_topic_partitions_decrease_rejected(
    addr: KafkaResourceAddress,
    c: KafkaTopic,
    d: KafkaTopic,
)
    requires
        addr is Topic,
        d.partitions < c.partitions,
    ensures
        plan_spec(addr, decoded(KafkaResource::Topic(c)), decoded(KafkaResource::Topic(d))) == Err::<
            Seq<Step>,
            PlanError,
        >(PlanError::UnsupportedTransition { from: c.partitions, to: d.partitions }),
{
}

/// A topic whose replication factor would change gets no plan at all.
pub proof fn lemma_topic_replication_change_rejected(
    addr: KafkaResourceAddress,
    c: KafkaTopic,
    d: KafkaTopic,
)
    requires
        addr is Topic,
        d.partitions == c.partitions,
        d.replication_factor != c.replication_factor,
        config_entries(d.config) == config_entries(c.config),
    ensures
        plan_spec(addr, decoded(KafkaResource::Topic(c)), decoded(KafkaResource::Topic(d))) == Err::<
            Seq<Step>,
            PlanError,
        >(PlanError::ImmutableFieldViolation { from: c.replication_factor, to: d.replication_factor }),
{
}

/// A topic whose configuration alone changes gets exactly one step, which
/// carries the whole desired configuration.
pub proof fn lemma_topic_config_change(addr: KafkaResourceAddress, c: KafkaTopic, d: KafkaTopic)
    requires
        addr is Topic,
        d.partitions == c.partitions,
        d.replication_factor == c.replication_factor,
        config_entries(d.config) != config_entries(c.config),
    ensures
        plan_spec(addr, decoded(KafkaResource::Topic(c)), decoded(KafkaResource::Topic(d))) == Ok::<
            Seq<Step>,
            PlanError,
        >(seq![(KafkaConnectorOp::UpdateTopicConfig { config: d.config }, "Update topic configuration"@)]),
{
    let steps = partition_steps(c, d) + config_steps(c, d);
    assert(steps =~= config_steps(c, d));
}

/// An ACL that differs in any field is replaced: first the current one is
/// deleted, then the desired one is created.
pub proof fn lemma_acl_replaced(addr: KafkaResourceAddress, c: KafkaAcl, d: KafkaAcl)
    requires
        addr is Acl,
        c@ != d@,
    ensures
        plan_spec(addr, decoded(KafkaResource::Acl(c)), decoded(KafkaResource::Acl(d))) == Ok::<
            Seq<Step>,
            PlanError,
        >(
            seq![
                (KafkaConnectorOp::DeleteAcl(c), "Delete old ACL"@),
                (KafkaConnectorOp::CreateAcl(d), acl_text("Create new ACL for "@, d@)),
            ],
        ),
{
}

/// A quota equal to the current one in every field needs no change.
pub proof fn lemma_quota_unchanged(addr: KafkaResourceAddress, c: KafkaQuota, d: KafkaQuota)
    requires
        addr is Quota,
        c@ == d@,
    ensures
        plan_spec(addr, decoded(KafkaResource::Quota(c)), decoded(KafkaResource::Quota(d))) == Ok::<
            Seq<Step>,
            PlanError,
        >(seq![]),
{
}

/// A resource that does not exist yet is created by exactly one step, which
/// carries the whole desired value.
pub proof fn lemma_create_from_absent(addr: KafkaResourceAddress, r: KafkaResource)
    requires
        kind_of_spec(addr) == Some(r.kind_spec()),
    ensures
        plan_spec(addr, None, decoded(r)) matches Ok(steps) && steps.len() == 1 && steps[0].0
            == create_op(r),
{
}

} // verus!
