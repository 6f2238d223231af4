//! The resources that the connector reconciles: topics, ACLs and quotas.

use vstd::prelude::*;

use indexmap::IndexMap;

use crate::addr::KafkaResourceAddress;

verus! {

#[verifier::external_type_specification]
#[verifier::external_body]
#[verifier::reject_recursive_types(K)]
#[verifier::reject_recursive_types(V)]
#[verifier::reject_recursive_types(S)]
pub struct ExIndexMap<K, V, S>(IndexMap<K, V, S>);

/// Relies on `Clone` for `IndexMap`, which copies each entry; nothing more is assumed.
pub assume_specification<K, V, S>[ <IndexMap<K, V, S> as Clone>::clone ](m: &IndexMap<K, V, S>) -> (r: IndexMap<K, V, S>)
    where
        K: Clone,
        V: Clone,
        S: Clone,
;

/// What a topic configuration map holds: each property name with its value.
pub uninterp spec fn config_entries(m: IndexMap<String, String>) -> Map<Seq<char>, Seq<char>>;

/// The property names of a topic configuration map, in the map's order.
pub uninterp spec fn config_keys(m: IndexMap<String, String>) -> Seq<Seq<char>>;

/// The contents of a configuration map without entries.
pub open spec fn no_entries() -> Map<Seq<char>, Seq<char>> {
    Map::empty()
}

/// Relies on `IndexMap::new`: the new map holds no entry.
#[verifier::external_body]
pub(crate) fn empty_config() -> (r: IndexMap<String, String>)
    ensures
        config_entries(r) == no_entries(),
        config_keys(r) == Seq::<Seq<char>>::empty(),
{
    IndexMap::new()
}

/// Relies on `IndexMap::insert`: afterwards `key` maps to `value`, the other
/// entries are kept; a key already present keeps its place in the order, a new
/// key comes last.
#[verifier::external_body]
pub(crate) fn config_insert(m: &mut IndexMap<String, String>, key: String, value: String)
    ensures
        config_entries(*final(m)) == config_entries(*old(m)).insert(key@, value@),
        config_keys(*final(m)) == (if config_entries(*old(m)).contains_key(key@) {
            config_keys(*old(m))
        } else {
            config_keys(*old(m)).push(key@)
        }),
{
    m.insert(key, value);
}

/// Relies on `PartialEq` for `IndexMap`: two maps are equal when they have the
/// same length and every entry of the first is in the second, whatever the order.
#[verifier::external_body]
pub(crate) fn config_eq(a: &IndexMap<String, String>, b: &IndexMap<String, String>) -> (r: bool)
    ensures
        r == (config_entries(*a) == config_entries(*b)),
{
    a == b
}

/// A topic with its settings.
#[derive(Clone, Debug)]
pub struct KafkaTopic {
    /// Number of partitions.
    pub partitions: i32,
    /// Number of replicas of each partition.
    pub replication_factor: i16,
    /// Topic-level configuration properties, in declaration order.
    pub config: IndexMap<String, String>,
}

pub struct TopicModel {
    pub partitions: i32,
    pub replication_factor: i16,
    pub config: Map<Seq<char>, Seq<char>>,
}

impl View for KafkaTopic {
    type V = TopicModel;

    open spec fn view(&self) -> TopicModel {
        TopicModel {
            partitions: self.partitions,
            replication_factor: self.replication_factor,
            config: config_entries(self.config),
        }
    }
}

impl PartialEq for KafkaTopic {
    fn eq(&self, o: &KafkaTopic) -> bool {
        self.partitions == o.partitions && self.replication_factor == o.replication_factor
            && config_eq(&self.config, &o.config)
    }
}

impl vstd::std_specs::cmp::PartialEqSpecImpl for KafkaTopic {
    open spec fn obeys_eq_spec() -> bool {
        true
    }

    open spec fn eq_spec(&self, o: &KafkaTopic) -> bool {
        self@ == o@
    }
}

impl Default for KafkaTopic {
    fn default() -> (r: KafkaTopic)
        ensures
            r.partitions == 1,
            r.replication_factor == 1,
            config_entries(r.config) == no_entries(),
    {
        KafkaTopic { partitions: 1, replication_factor: 1, config: empty_config() }
    }
}

/// The kind of resource that an ACL controls.
#[derive(Clone, Copy, Debug, PartialEq, Eq, Hash, Structural)]
pub enum KafkaResourceType {
    Topic,
    Group,
    Cluster,
    TransactionalId,
    DelegationToken,
}

/// How an ACL's resource name matches resources.
#[derive(Clone, Copy, Debug, PartialEq, Eq, Hash, Structural)]
pub enum KafkaResourcePatternType {
    /// The exact name.
    Literal,
    /// Every name with this prefix.
    Prefixed,
}

#[derive(Clone, Copy, Debug, PartialEq, Eq, Hash, Structural)]
pub enum KafkaPrincipalType {
    User,
    Group,
}

/// A user or group that an ACL applies to.
#[derive(Clone, Debug)]
pub struct KafkaPrincipal {
    pub principal_type: KafkaPrincipalType,
    pub name: String,
}

impl View for KafkaPrincipal {
    type V = (KafkaPrincipalType, Seq<char>);

    open spec fn view(&self) -> (KafkaPrincipalType, Seq<char>) {
        (self.principal_type, self.name@)
    }
}

impl PartialEq for KafkaPrincipal {
    fn eq(&self, o: &KafkaPrincipal) -> bool {
        self.principal_type == o.principal_type && self.name == o.name
    }
}

impl vstd::std_specs::cmp::PartialEqSpecImpl for KafkaPrincipal {
    open spec fn obeys_eq_spec() -> bool {
        true
    }

    open spec fn eq_spec(&self, o: &KafkaPrincipal) -> bool {
        self@ == o@
    }
}

/// The operation that an ACL allows or denies.
#[derive(Clone, Copy, Debug, PartialEq, Eq, Hash, Structural)]
pub enum KafkaAclOperation {
    Read,
    Write,
    Create,
    Delete,
    Alter,
    Describe,
    ClusterAction,
    DescribeConfigs,
    AlterConfigs,
    IdempotentWrite,
    All,
}

#[derive(Clone, Copy, Debug, PartialEq, Eq, Hash, Structural)]
pub enum KafkaAclPermission {
    Allow,
    Deny,
}

/// One access-control entry. ACLs are never patched, only replaced.
#[derive(Clone, Debug)]
pub struct KafkaAcl {
    pub resource_type: KafkaResourceType,
    /// Name of the controlled resource (a topic name, a group name, ...).
    pub resource_name: String,
    pub pattern_type: KafkaResourcePatternType,
    pub principal: KafkaPrincipal,
    /// Host the principal connects from; `*` for every host.
    pub host: String,
    pub operation: KafkaAclOperation,
    pub permission: KafkaAclPermission,
}

pub struct AclModel {
    pub resource_type: KafkaResourceType,
    pub resource_name: Seq<char>,
    pub pattern_type: KafkaResourcePatternType,
    pub principal: (KafkaPrincipalType, Seq<char>),
    pub host: Seq<char>,
    pub operation: KafkaAclOperation,
    pub permission: KafkaAclPermission,
}

impl View for KafkaAcl {
    type V = AclModel;

    open spec fn view(&self) -> AclModel {
        AclModel {
            resource_type: self.resource_type,
            resource_name: self.resource_name@,
            pattern_type: self.pattern_type,
            principal: self.principal@,
            host: self.host@,
            operation: self.operation,
            permission: self.permission,
        }
    }
}

impl PartialEq for KafkaAcl {
    fn eq(&self, o: &KafkaAcl) -> bool {
        self.resource_type == o.resource_type && self.resource_name == o.resource_name
            && self.pattern_type == o.pattern_type && self.principal == o.principal && self.host
            == o.host && self.operation == o.operation && self.permission == o.permission
    }
}

impl vstd::std_specs::cmp::PartialEqSpecImpl for KafkaAcl {
    open spec fn obeys_eq_spec() -> bool {
        true
    }

    open spec fn eq_spec(&self, o: &KafkaAcl) -> bool {
        self@ == o@
    }
}

pub open spec fn default_acl() -> AclModel {
    AclModel {
        resource_type: KafkaResourceType::Topic,
        resource_name: Seq::empty(),
        pattern_type: KafkaResourcePatternType::Literal,
        principal: (KafkaPrincipalType::User, Seq::empty()),
        host: seq!['*'],
        operation: KafkaAclOperation::All,
        permission: KafkaAclPermission::Allow,
    }
}

impl Default for KafkaAcl {
    /// Allows every operation on the topic with the empty name, to the user
    /// with the empty name, from every host.
    fn default() -> (r: KafkaAcl)
        ensures
            r@ == default_acl(),
    {
        proof {
            reveal_strlit("*");
        }
        let host = String::from_str("*");
        assert(host@ =~= seq!['*']);
        let r = KafkaAcl {
            resource_type: KafkaResourceType::Topic,
            resource_name: String::new(),
            pattern_type: KafkaResourcePatternType::Literal,
            principal: KafkaPrincipal { principal_type: KafkaPrincipalType::User, name: String::new() },
            host,
            operation: KafkaAclOperation::All,
            permission: KafkaAclPermission::Allow,
        };
        assert(r@.resource_name =~= Seq::<char>::empty());
        assert(r@.principal.1 =~= Seq::<char>::empty());
        r
    }
}

#[derive(Clone, Copy, Debug, PartialEq, Eq, Hash, Structural)]
pub enum KafkaQuotaEntityType {
    User,
    ClientId,
    Ip,
}

/// One client identity that a quota applies to.
#[derive(Clone, Debug)]
pub struct KafkaQuotaEntity {
    pub entity_type: KafkaQuotaEntityType,
    /// A user name, a client id or an IP address.
    pub name: String,
}

impl View for KafkaQuotaEntity {
    type V = (KafkaQuotaEntityType, Seq<char>);

    open spec fn view(&self) -> (KafkaQuotaEntityType, Seq<char>) {
        (self.entity_type, self.name@)
    }
}

impl PartialEq for KafkaQuotaEntity {
    fn eq(&self, o: &KafkaQuotaEntity) -> bool {
        self.entity_type == o.entity_type && self.name == o.name
    }
}

impl vstd::std_specs::cmp::PartialEqSpecImpl for KafkaQuotaEntity {
    open spec fn obeys_eq_spec() -> bool {
        true
    }

    open spec fn eq_spec(&self, o: &KafkaQuotaEntity) -> bool {
        self@ == o@
    }
}

/// Rate limits for a list of client identities.
///
/// Each rate is held as the IEEE-754 bit pattern of its `f64` value
/// (`f64::to_bits`); `None` means unset, which differs from zero.
#[derive(Clone, Debug)]
pub struct KafkaQuota {
    pub entities: Vec<KafkaQuotaEntity>,
    /// Producer bytes per second.
    pub producer_byte_rate: Option<u64>,
    /// Consumer bytes per second.
    pub consumer_byte_rate: Option<u64>,
    /// Share of request handler time, in percent.
    pub request_percentage: Option<u64>,
}

pub struct QuotaModel {
    pub entities: Seq<(KafkaQuotaEntityType, Seq<char>)>,
    pub producer_byte_rate: Option<u64>,
    pub consumer_byte_rate: Option<u64>,
    pub request_percentage: Option<u64>,
}

pub open spec fn entities_view(v: Seq<KafkaQuotaEntity>) -> Seq<(KafkaQuotaEntityType, Seq<char>)> {
    v.map_values(|e: KafkaQuotaEntity| e@)
}

impl View for KafkaQuota {
    type V = QuotaModel;

    open spec fn view(&self) -> QuotaModel {
        QuotaModel {
            entities: entities_view(self.entities@),
            producer_byte_rate: self.producer_byte_rate,
            consumer_byte_rate: self.consumer_byte_rate,
            request_percentage: self.request_percentage,
        }
    }
}

fn same_rate(a: Option<u64>, b: Option<u64>) -> (r: bool)
    ensures
        r == (a == b),
{
    match (a, b) {
        (None, None) => true,
        (Some(x), Some(y)) => x == y,
        _ => false,
    }
}

fn same_entities(a: &Vec<KafkaQuotaEntity>, b: &Vec<KafkaQuotaEntity>) -> (r: bool)
    ensures
        r == (entities_view(a@) == entities_view(b@)),
{
    if a.len() != b.len() {
        assert(entities_view(a@).len() != entities_view(b@).len());
        return false;
    }
    let mut i: usize = 0;
    while i < a.len()
        invariant
            a.len() == b.len(),
            i <= a.len(),
            forall|j: int| 0 <= j < i ==> a@[j]@ == b@[j]@,
        decreases a.len() - i,
    {
        if a[i] != b[i] {
            assert(entities_view(a@)[i as int] != entities_view(b@)[i as int]);
            return false;
        }
        i = i + 1;
    }
    assert(entities_view(a@) =~= entities_view(b@));
    true
}

impl PartialEq for KafkaQuota {
    fn eq(&self, o: &KafkaQuota) -> bool {
        same_entities(&self.entities, &o.entities) && same_rate(
            self.producer_byte_rate,
            o.producer_byte_rate,
        ) && same_rate(self.consumer_byte_rate, o.consumer_byte_rate) && same_rate(
            self.request_percentage,
            o.request_percentage,
        )
    }
}

impl vstd::std_specs::cmp::PartialEqSpecImpl for KafkaQuota {
    open spec fn obeys_eq_spec() -> bool {
        true
    }

    open spec fn eq_spec(&self, o: &KafkaQuota) -> bool {
        self@ == o@
    }
}

impl Default for KafkaQuota {
    fn default() -> (r: KafkaQuota)
        ensures
            r.entities@.len() == 0,
            r.producer_byte_rate is None,
            r.consumer_byte_rate is None,
            r.request_percentage is None,
    {
        KafkaQuota {
            entities: Vec::new(),
            producer_byte_rate: None,
            consumer_byte_rate: None,
            request_percentage: None,
        }
    }
}

/// The kinds of reconciled resource.
#[derive(Clone, Copy, Debug, PartialEq, Eq, Hash, Structural)]
pub enum ResourceKind {
    Topic,
    Acl,
    Quota,
}

/// A decoded resource of any kind.
#[derive(Clone, Debug, PartialEq)]
pub enum KafkaResource {
    Topic(KafkaTopic),
    Acl(KafkaAcl),
    Quota(KafkaQuota),
}

/// A resource of one kind was found where another was expected.
#[derive(Clone, Copy, Debug, PartialEq, Eq, Structural)]
pub struct KindMismatch {
    pub expected: ResourceKind,
    pub found: ResourceKind,
}

/// The kind of resource stored at an address, which selects how its bytes are read;
/// `None` for the configuration and for tasks.
pub open spec fn kind_of_spec(addr: KafkaResourceAddress) -> Option<ResourceKind> {
    match addr {
        KafkaResourceAddress::Topic { .. } => Some(ResourceKind::Topic),
        KafkaResourceAddress::Acl { .. } => Some(ResourceKind::Acl),
        KafkaResourceAddress::Quota { .. } => Some(ResourceKind::Quota),
        _ => None,
    }
}

/// The kind of resource stored at `addr`, if it stores one.
pub fn resource_kind(addr: &KafkaResourceAddress) -> (r: Option<ResourceKind>)
    ensures
        r == kind_of_spec(*addr),
{
    match addr {
        KafkaResourceAddress::Topic { .. } => Some(ResourceKind::Topic),
        KafkaResourceAddress::Acl { .. } => Some(ResourceKind::Acl),
        KafkaResourceAddress::Quota { .. } => Some(ResourceKind::Quota),
        _ => None,
    }
}

impl KafkaResource {
    pub open spec fn kind_spec(&self) -> ResourceKind {
        match self {
            KafkaResource::Topic(_) => ResourceKind::Topic,
            KafkaResource::Acl(_) => ResourceKind::Acl,
            KafkaResource::Quota(_) => ResourceKind::Quota,
        }
    }

    /// Which kind of resource this is.
    pub fn kind(&self) -> (r: ResourceKind)
        ensures
            r == self.kind_spec(),
    {
        match self {
            KafkaResource::Topic(_) => ResourceKind::Topic,
            KafkaResource::Acl(_) => ResourceKind::Acl,
            KafkaResource::Quota(_) => ResourceKind::Quota,
        }
    }

    /// The topic inside, or `KindMismatch` for another kind.
    pub fn into_topic(self) -> (r: Result<KafkaTopic, KindMismatch>)
        ensures
            match self {
                KafkaResource::Topic(t) => r == Ok::<KafkaTopic, KindMismatch>(t),
                _ => r == Err::<KafkaTopic, KindMismatch>(
                    KindMismatch { expected: ResourceKind::Topic, found: self.kind_spec() },
                ),
            },
    {
        let found = self.kind();
        match self {
            KafkaResource::Topic(t) => Ok(t),
            _ => Err(KindMismatch { expected: ResourceKind::Topic, found }),
        }
    }

    /// The ACL inside, or `KindMismatch` for another kind.
    pub fn into_acl(self) -> (r: Result<KafkaAcl, KindMismatch>)
        ensures
            match self {
                KafkaResource::Acl(a) => r == Ok::<KafkaAcl, KindMismatch>(a),
                _ => r == Err::<KafkaAcl, KindMismatch>(
                    KindMismatch { expected: ResourceKind::Acl, found: self.kind_spec() },
                ),
            },
    {
        let found = self.kind();
        match self {
            KafkaResource::Acl(a) => Ok(a),
            _ => Err(KindMismatch { expected: ResourceKind::Acl, found }),
        }
    }

    /// The quota inside, or `KindMismatch` for another kind.
    pub fn into_quota(self) -> (r: Result<KafkaQuota, KindMismatch>)
        ensures
            match self {
                KafkaResource::Quota(q) => r == Ok::<KafkaQuota, KindMismatch>(q),
                _ => r == Err::<KafkaQuota, KindMismatch>(
                    KindMismatch { expected: ResourceKind::Quota, found: self.kind_spec() },
                ),
            },
    {
        let found = self.kind();
        match self {
            KafkaResource::Quota(q) => Ok(q),
            _ => Err(KindMismatch { expected: ResourceKind::Quota, found }),
        }
    }
}

} // verus!
