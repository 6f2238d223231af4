//! Carrying out one change: which remote admin call it takes, on which cluster,
//! and what the call's report means.
//!
//! The call itself is made by the host; this module decides it beforehand
//! ([`prepare_exec`]) and reads its report afterwards ([`finish_exec`]).

use vstd::prelude::*;
use vstd::hash_map::StringHashMap;

use indexmap::IndexMap;

use crate::addr::KafkaResourceAddress;
use crate::op::KafkaConnectorOp;

verus! {

/// The connected admin handle of each cluster, by cluster name.
#[verifier::reject_recursive_types(C)]
pub struct ClientPool<C> {
    clients: StringHashMap<C>,
}

impl<C> View for ClientPool<C> {
    type V = Map<Seq<char>, C>;

    closed spec fn view(&self) -> Map<Seq<char>, C> {
        self.clients@
    }
}

/// The remote admin calls that topic changes take.
#[derive(Clone, Copy, Debug, PartialEq, Eq, Structural)]
pub enum CallKind {
    CreateTopics,
    CreatePartitions,
    AlterConfigs,
    DeleteTopics,
}

/// One remote admin call on a topic, with all of its arguments.
#[derive(Clone, Debug, PartialEq)]
pub enum RemoteCall {
    /// Create `topic` with these partitions, replicas and properties.
    CreateTopic { topic: String, partitions: i32, replication: i32, config: IndexMap<String, String> },
    /// Raise the partition count of `topic` to `total`.
    CreatePartitions { topic: String, total: i32 },
    /// Set the properties of `topic`.
    AlterConfig { topic: String, config: IndexMap<String, String> },
    /// Delete `topic`.
    DeleteTopic { topic: String },
}

impl RemoteCall {
    pub open spec fn kind_spec(&self) -> CallKind {
        match self {
            RemoteCall::CreateTopic { .. } => CallKind::CreateTopics,
            RemoteCall::CreatePartitions { .. } => CallKind::CreatePartitions,
            RemoteCall::AlterConfig { .. } => CallKind::AlterConfigs,
            RemoteCall::DeleteTopic { .. } => CallKind::DeleteTopics,
        }
    }

    pub open spec fn topic_spec(&self) -> String {
        match self {
            RemoteCall::CreateTopic { topic, .. } => *topic,
            RemoteCall::CreatePartitions { topic, .. } => *topic,
            RemoteCall::AlterConfig { topic, .. } => *topic,
            RemoteCall::DeleteTopic { topic } => *topic,
        }
    }

    /// Which admin call this is.
    pub fn kind(&self) -> (r: CallKind)
        ensures
            r == self.kind_spec(),
    {
        match self {
            RemoteCall::CreateTopic { .. } => CallKind::CreateTopics,
            RemoteCall::CreatePartitions { .. } => CallKind::CreatePartitions,
            RemoteCall::AlterConfig { .. } => CallKind::AlterConfigs,
            RemoteCall::DeleteTopic { .. } => CallKind::DeleteTopics,
        }
    }

    /// The topic that the call is about.
    pub fn topic(&self) -> (r: &String)
        ensures
            *r == self.topic_spec(),
    {
        match self {
            RemoteCall::CreateTopic { topic, .. } => topic,
            RemoteCall::CreatePartitions { topic, .. } => topic,
            RemoteCall::AlterConfig { topic, .. } => topic,
            RemoteCall::DeleteTopic { topic } => topic,
        }
    }
}

/// What carrying out a change takes.
#[derive(Clone, Debug, PartialEq)]
pub enum ExecAction {
    /// One remote call on the named cluster.
    Remote { cluster: String, call: RemoteCall },
    /// Nothing remote: the capability is missing, and `message` says so.
    NotImplemented { message: String },
}

/// Why a change could not be carried out.
#[derive(Clone, Debug, PartialEq, Eq)]
pub enum ExecError {
    /// The change does not apply to the kind of address it was sent to.
    InvalidOperation,
    /// No admin handle is known for the address's cluster.
    ClusterNotFound { cluster: String },
    /// The call reported success but no entry for the requested item.
    NoResultReturned { call: CallKind },
    /// The cluster refused the call, or the requested item; `detail` is its message.
    RemoteOperationFailure { call: CallKind, resource: String, detail: String },
}

/// What a remote call reported: `Err(detail)` when the call as a whole failed;
/// otherwise one entry per requested item, `Ok(name)` or `Err((name, detail))`.
pub type CallReport = Result<Vec<Result<String, (String, String)>>, String>;

impl<C> ClientPool<C> {
    /// A pool without clients.
    pub fn new() -> (r: Self)
        ensures
            r@ == Map::<Seq<char>, C>::empty(),
    {
        ClientPool { clients: StringHashMap::new() }
    }

    /// Binds `cluster` to `client`, replacing an earlier handle of that name.
    pub fn insert(&mut self, cluster: String, client: C)
        ensures
            final(self)@ == old(self)@.insert(cluster@, client),
    {
        self.clients.insert(cluster, client);
    }

    /// Whether a handle is bound to `cluster`.
    pub fn contains(&self, cluster: &str) -> (r: bool)
        ensures
            r == self@.contains_key(cluster@),
    {
        self.clients.contains_key(cluster)
    }

    /// The handle bound to `cluster`, or `ClusterNotFound`.
    pub fn client(&self, cluster: &str) -> (r: Result<&C, ExecError>)
        ensures
            match r {
                Ok(c) => self@.contains_key(cluster@) && *c == self@[cluster@],
                Err(e) => !self@.contains_key(cluster@) && (e matches ExecError::ClusterNotFound {
                    cluster: n,
                } && n@ == cluster@),
            },
    {
        match self.clients.get(cluster) {
            Some(c) => Ok(c),
            None => Err(ExecError::ClusterNotFound { cluster: String::from_str(cluster) }),
        }
    }
}

/// The remote call that applies `op` to `topic`, if `op` is a topic change.
pub open spec fn topic_call(topic: String, op: KafkaConnectorOp) -> Option<RemoteCall> {
    match op {
        KafkaConnectorOp::CreateTopic(t) => Some(
            RemoteCall::CreateTopic {
                topic,
                partitions: t.partitions,
                replication: t.replication_factor as i32,
                config: t.config,
            },
        ),
        KafkaConnectorOp::UpdateTopicPartitions { partitions } => Some(
            RemoteCall::CreatePartitions { topic, total: partitions },
        ),
        KafkaConnectorOp::UpdateTopicConfig { config } => Some(RemoteCall::AlterConfig { topic, config }),
        KafkaConnectorOp::DeleteTopic => Some(RemoteCall::DeleteTopic { topic }),
        _ => None,
    }
}

/// Decides how `op`, sent to `addr`, is carried out: a topic change on a known
/// cluster becomes one remote call; ACL and quota changes are not carried out
/// remotely and say so; anything else is refused.
pub fn prepare_exec<C>(pool: &ClientPool<C>, addr: &KafkaResourceAddress, op: KafkaConnectorOp) -> (r:
    Result<ExecAction, ExecError>)
    ensures
        match addr {
            KafkaResourceAddress::Config => r == Err::<ExecAction, ExecError>(ExecError::InvalidOperation),
            KafkaResourceAddress::Task { .. } => r == Err::<ExecAction, ExecError>(
                ExecError::InvalidOperation,
            ),
            KafkaResourceAddress::Topic { cluster, topic } => if !pool@.contains_key(cluster@) {
                r matches Err(ExecError::ClusterNotFound { cluster: n }) && n@ == cluster@
            } else {
                match topic_call(*topic, op) {
                    Some(call) => r == Ok::<ExecAction, ExecError>(
                        ExecAction::Remote { cluster: *cluster, call },
                    ),
                    None => r == Err::<ExecAction, ExecError>(ExecError::InvalidOperation),
                }
            },
            KafkaResourceAddress::Acl { .. } => r matches Ok(ExecAction::NotImplemented { message })
                && message@ == "ACL operation not yet implemented"@,
            KafkaResourceAddress::Quota { .. } => r matches Ok(ExecAction::NotImplemented { message })
                && message@ == "Quota operation not yet implemented"@,
        },
{
    match addr {
        KafkaResourceAddress::Config => Err(ExecError::InvalidOperation),
        KafkaResourceAddress::Task { .. } => Err(ExecError::InvalidOperation),
        KafkaResourceAddress::Topic { cluster, topic } => {
            if !pool.contains(cluster.as_str()) {
                return Err(ExecError::ClusterNotFound { cluster: cluster.clone() });
            }
            let call = match op {
                KafkaConnectorOp::CreateTopic(t) => RemoteCall::CreateTopic {
                    topic: topic.clone(),
                    partitions: t.partitions,
                    replication: t.replication_factor as i32,
                    config: t.config,
                },
                KafkaConnectorOp::UpdateTopicPartitions { partitions } => RemoteCall::CreatePartitions {
                    topic: topic.clone(),
                    total: partitions,
                },
                KafkaConnectorOp::UpdateTopicConfig { config } => RemoteCall::AlterConfig {
                    topic: topic.clone(),
                    config,
                },
                KafkaConnectorOp::DeleteTopic => RemoteCall::DeleteTopic { topic: topic.clone() },
                _ => {
                    return Err(ExecError::InvalidOperation);
                },
            };
            Ok(ExecAction::Remote { cluster: cluster.clone(), call })
        },
        KafkaResourceAddress::Acl { .. } => Ok(
            ExecAction::NotImplemented {
                message: String::from_str("ACL operation not yet implemented"),
            },
        ),
        KafkaResourceAddress::Quota { .. } => Ok(
            ExecAction::NotImplemented {
                message: String::from_str("Quota operation not yet implemented"),
            },
        ),
    }
}

/// The confirmation that a successful call earns.
pub open spec fn success_text(call: RemoteCall, cluster: Seq<char>) -> Seq<char> {
    match call {
        RemoteCall::CreateTopic { topic, .. } => "Created topic '"@ + topic@ + "' in cluster '"@ + cluster
            + "'"@,
        RemoteCall::CreatePartitions { topic, total } => "Increased partitions for topic '"@ + topic@
            + "' to "@ + crate::text::int_text(total as int) + " in cluster '"@ + cluster + "'"@,
        RemoteCall::AlterConfig { topic, .. } => "Altered config for topic '"@ + topic@
            + "' in cluster '"@ + cluster + "'"@,
        RemoteCall::DeleteTopic { topic } => "Deleted topic '"@ + topic@ + "' from cluster '"@ + cluster
            + "'"@,
    }
}

fn success_message(call: &RemoteCall, cluster: &str) -> (r: String)
    ensures
        r@ == success_text(*call, cluster@),
{
    let mut s = match call {
        RemoteCall::CreateTopic { topic, .. } => {
            let mut s = String::from_str("Created topic '");
            s.append(topic.as_str());
            s.append("' in cluster '");
            s
        },
        RemoteCall::CreatePartitions { topic, total } => {
            let mut s = String::from_str("Increased partitions for topic '");
            s.append(topic.as_str());
            s.append("' to ");
            let n = crate::text::decimal(*total as i64);
            s.append(n.as_str());
            s.append(" in cluster '");
            s
        },
        RemoteCall::AlterConfig { topic, .. } => {
            let mut s = String::from_str("Altered config for topic '");
            s.append(topic.as_str());
            s.append("' in cluster '");
            s
        },
        RemoteCall::DeleteTopic { topic } => {
            let mut s = String::from_str("Deleted topic '");
            s.append(topic.as_str());
            s.append("' from cluster '");
            s
        },
    };
    s.append(cluster);
    s.append("'");
    s
}

/// Reads the report of `call`, made on `cluster`. A call that failed as a whole
/// fails with its message, tagged with the topic. A call that reported no entry
/// fails with `NoResultReturned`, even though the call itself succeeded. Otherwise
/// the first entry decides: a refused item fails with the cluster's message,
/// tagged with the item's name (the topic for a configuration change), and an
/// accepted one yields the confirmation.
pub fn finish_exec(call: &RemoteCall, cluster: &str, report: CallReport) -> (r: Result<String, ExecError>)
    ensures
        match report {
            Err(detail) => r == Err::<String, ExecError>(
                ExecError::RemoteOperationFailure {
                    call: call.kind_spec(),
                    resource: call.topic_spec(),
                    detail,
                },
            ),
            Ok(items) => if items@.len() == 0 {
                r == Err::<String, ExecError>(ExecError::NoResultReturned { call: call.kind_spec() })
            } else {
                match items@[0] {
                    Ok(_) => r matches Ok(m) && m@ == success_text(*call, cluster@),
                    Err((name, detail)) => r == Err::<String, ExecError>(
                        ExecError::RemoteOperationFailure {
                            call: call.kind_spec(),
                            resource: if call is AlterConfig {
                                call.topic_spec()
                            } else {
                                name
                            },
                            detail,
                        },
                    ),
                }
            },
        },
{
    let kind = call.kind();
    match report {
        Err(detail) => Err(
            ExecError::RemoteOperationFailure { call: kind, resource: call.topic().clone(), detail },
        ),
        Ok(items) => {
            if items.len() == 0 {
                return Err(ExecError::NoResultReturned { call: kind });
            }
            let mut items = items;
            let first = items.swap_remove(0);
            match first {
                Ok(_) => Ok(success_message(call, cluster)),
                Err((name, detail)) => {
                    let resource = match kind {
                        CallKind::AlterConfigs => call.topic().clone(),
                        _ => name,
                    };
                    Err(ExecError::RemoteOperationFailure { call: kind, resource, detail })
                },
            }
        },
    }
}

} // verus!
