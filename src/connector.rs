//! Decisions of the connector's entry points that do not touch a cluster:
//! which paths it serves, how listed topics become paths, and how a described
//! topic becomes a resource.

use vstd::prelude::*;

use crate::text::{text_le, text_lt};
use crate::addr::{decode_spec, resource_path, word_topics, AddressModel, KafkaResourceAddress};
use crate::resource::{
    config_entries, config_keys, config_insert, default_acl, empty_config, no_entries, KafkaAcl, KafkaQuota,
    KafkaResource, KafkaTopic,
};

verus! {

/// What the connector makes of a path.
#[derive(Clone, Copy, Debug, PartialEq, Eq, Structural)]
pub enum FilterKind {
    /// The connector's own configuration.
    Config,
    /// A resource (or task) of the connector.
    Resource,
    /// A path that the connector does not serve.
    NoMatch,
}

pub open spec fn filter_spec(p: Seq<char>) -> FilterKind {
    match decode_spec(p) {
        Some(AddressModel::Config) => FilterKind::Config,
        Some(_) => FilterKind::Resource,
        None => FilterKind::NoMatch,
    }
}

/// Classifies `path` by the address it names.
pub fn filter_kind(path: &str) -> (r: FilterKind)
    ensures
        r == filter_spec(path@),
{
    match KafkaResourceAddress::from_path(path) {
        Ok(KafkaResourceAddress::Config) => FilterKind::Config,
        Ok(_) => FilterKind::Resource,
        Err(_) => FilterKind::NoMatch,
    }
}

/// The path under which the resources of cluster `name` live.
pub fn cluster_subpath(name: &str) -> (r: String)
    ensures
        r@ == "kafka/"@ + name@,
{
    crate::text::join2("kafka/", name)
}

/// Whether a topic name is internal to the broker (it starts with `__`).
pub open spec fn is_internal(name: Seq<char>) -> bool {
    name.len() >= 2 && name[0] == '_' && name[1] == '_'
}

/// The paths of the non-internal topics among `names`, in their order.
pub open spec fn listed_paths(cluster: Seq<char>, names: Seq<Seq<char>>) -> Seq<Seq<char>>
    decreases names.len(),
{
    if names.len() == 0 {
        seq![]
    } else {
        let rest = listed_paths(cluster, names.drop_last());
        if is_internal(names.last()) {
            rest
        } else {
            rest.push(resource_path(cluster, word_topics(), names.last()))
        }
    }
}

pub open spec fn texts_view(v: Seq<String>) -> Seq<Seq<char>> {
    v.map_values(|s: String| s@)
}

/// The paths of the topics named `names` on `cluster`, leaving out internal topics.
pub fn listed_topic_paths(cluster: &str, names: &Vec<String>) -> (r: Vec<String>)
    ensures
        texts_view(r@) == listed_paths(cluster@, texts_view(names@)),
{
    let mut out: Vec<String> = Vec::new();
    let mut i: usize = 0;
    while i < names.len()
        invariant
            i <= names@.len(),
            texts_view(out@) == listed_paths(cluster@, texts_view(names@).take(i as int)),
        decreases names@.len() - i,
    {
        let name = &names[i];
        let ghost before = out@;
        assert(texts_view(names@).take(i + 1).drop_last() =~= texts_view(names@).take(i as int));
        let internal = name.unicode_len() >= 2 && name.as_str().get_char(0) == '_'
            && name.as_str().get_char(1) == '_';
        if !internal {
            let addr = KafkaResourceAddress::Topic {
                cluster: String::from_str(cluster),
                topic: name.clone(),
            };
            out.push(addr.to_path());
            assert(texts_view(out@) =~= texts_view(before).push(
                resource_path(cluster@, word_topics(), name@),
            ));
        }
        i = i + 1;
    }
    assert(texts_view(names@).take(i as int) =~= texts_view(names@));
    out
}

/// One configuration entry of a described topic.
#[derive(Clone, Debug, PartialEq, Eq)]
pub struct DescribedEntry {
    pub name: String,
    /// `None` when the broker reports no value.
    pub value: Option<String>,
    pub is_read_only: bool,
    pub is_sensitive: bool,
}

/// Whether an entry is part of a topic's declared configuration: it is neither
/// read-only nor sensitive, and has a value.
pub open spec fn kept(e: DescribedEntry) -> bool {
    !e.is_read_only && !e.is_sensitive && e.value is Some
}

/// Whether `s` holds the same entries as `t`, in any order.
pub open spec fn same_entries(s: Seq<DescribedEntry>, t: Seq<DescribedEntry>) -> bool {
    &&& s.len() == t.len()
    &&& forall|i: int| 0 <= i < s.len() ==> exists|j: int| 0 <= j < t.len() && #[trigger] s[i] == t[j]
    &&& forall|j: int| 0 <= j < t.len() ==> exists|i: int| 0 <= i < s.len() && s[i] == #[trigger] t[j]
}

/// Whether the entries of `s` come in order of name.
pub open spec fn sorted_by_name(s: Seq<DescribedEntry>) -> bool {
    forall|a: int, b: int| 0 <= a < b < s.len() ==> #[trigger] text_le(s[a].name@, s[b].name@)
}

/// Whether the keys of a configuration map come in strictly ascending order.
pub open spec fn keys_ascending(keys: Seq<Seq<char>>) -> bool {
    forall|a: int, b: int| 0 <= a < b < keys.len() ==> #[trigger] text_lt(keys[a], keys[b])
}

/// Relies on `slice::sort_by_key` with the `Ord` of `String`: it reorders the
/// entries (stably) so that their names ascend.
#[verifier::external_body]
fn sort_by_name(v: &mut Vec<DescribedEntry>)
    ensures
        same_entries(final(v)@, old(v)@),
        sorted_by_name(final(v)@),
{
    v.sort_by_key(|e| e.name.clone());
}

/// The topic that a description gives: one partition per entry of
/// `replica_counts`, the replica count of the first partition as replication
/// factor (1 when there is no partition), and the kept configuration entries,
/// ordered by name.
pub fn topic_from_description(replica_counts: &Vec<usize>, entries: Vec<DescribedEntry>) -> (r:
    KafkaTopic)
    ensures
        r.partitions == replica_counts@.len() as i32,
        r.replication_factor == (if replica_counts@.len() > 0 {
            replica_counts@[0] as i16
        } else {
            1i16
        }),
        forall|k: Seq<char>| #[trigger]
            config_entries(r.config).contains_key(k) <==> exists|j: int|
                0 <= j < entries@.len() && kept(entries@[j]) && entries@[j].name@ == k,
        forall|k: Seq<char>| #[trigger]
            config_entries(r.config).contains_key(k) ==> exists|j: int|
                0 <= j < entries@.len() && kept(entries@[j]) && entries@[j].name@ == k
                    && entries@[j].value->0@ == config_entries(r.config)[k],
        keys_ascending(config_keys(r.config)),
        forall|k: Seq<char>| #[trigger]
            config_keys(r.config).contains(k) <==> config_entries(r.config).contains_key(k),
{
    let partitions = replica_counts.len() as i32;
    let replication_factor: i16 = if replica_counts.len() > 0 {
        replica_counts[0] as i16
    } else {
        1
    };
    let mut sorted = entries;
    sort_by_name(&mut sorted);
    let mut config = empty_config();
    let mut i: usize = 0;
    while i < sorted.len()
        invariant
            i <= sorted@.len(),
            forall|k: Seq<char>| #[trigger]
                config_entries(config).contains_key(k) <==> exists|j: int|
                    0 <= j < i && kept(sorted@[j]) && sorted@[j].name@ == k,
            forall|k: Seq<char>| #[trigger]
                config_entries(config).contains_key(k) ==> exists|j: int|
                    0 <= j < i && kept(sorted@[j]) && sorted@[j].name@ == k && sorted@[j].value->0@
                        == config_entries(config)[k],
            sorted_by_name(sorted@),
            keys_ascending(config_keys(config)),
            forall|k: Seq<char>| #[trigger]
                config_keys(config).contains(k) <==> config_entries(config).contains_key(k),
        decreases sorted@.len() - i,
    {
        let e = &sorted[i];
        if !e.is_read_only && !e.is_sensitive {
            if let Some(value) = &e.value {
                let ghost old_keys = config_keys(config);
                let ghost old_entries = config_entries(config);
                proof {
                    if !old_entries.contains_key(e.name@) {
                        assert forall|a: int| 0 <= a < old_keys.len() implies text_lt(
                            old_keys[a],
                            e.name@,
                        ) by {
                            assert(old_keys.contains(old_keys[a]));
                            let j = choose|j: int|
                                0 <= j < i && kept(sorted@[j]) && sorted@[j].name@ == old_keys[a];
                            assert(text_le(sorted@[j].name@, sorted@[i as int].name@));
                            assert(sorted@[i as int] == *e);
                        }
                    }
                }
                config_insert(&mut config, e.name.clone(), value.clone());
                assert(keys_ascending(config_keys(config)));
                assert forall|k: Seq<char>|
                    #[trigger] config_keys(config).contains(k) <==> config_entries(config).contains_key(k) by {
                    if !old_entries.contains_key(e.name@) {
                        if k != e.name@ && config_keys(config).contains(k) {
                            let a = choose|a: int| 0 <= a < config_keys(config).len() && config_keys(config)[a] == k;
                            assert(old_keys[a] == k);
                            assert(old_keys.contains(k));
                        }
                        if k != e.name@ && old_keys.contains(k) {
                            let a = choose|a: int| 0 <= a < old_keys.len() && old_keys[a] == k;
                            assert(config_keys(config)[a] == k);
                        }
                        if k == e.name@ {
                            assert(config_keys(config)[old_keys.len() as int] == k);
                        }
                    }
                }
                assert forall|k: Seq<char>| #[trigger]
                    config_entries(config).contains_key(k) implies exists|j: int|
                        0 <= j < i + 1 && kept(sorted@[j]) && sorted@[j].name@ == k
                            && sorted@[j].value->0@ == config_entries(config)[k] by {
                    if k == e.name@ {
                        assert(sorted@[i as int] == *e);
                    }
                }
                assert forall|k: Seq<char>|
                    (exists|j: int| 0 <= j < i + 1 && kept(sorted@[j]) && sorted@[j].name@ == k) implies
                    #[trigger] config_entries(config).contains_key(k) by {
                    let j = choose|j: int| 0 <= j < i + 1 && kept(sorted@[j]) && sorted@[j].name@ == k;
                    if j < i {
                        assert(exists|j: int| 0 <= j < i && kept(sorted@[j]) && sorted@[j].name@ == k);
                    }
                }
            }
        }
        i = i + 1;
    }
    assert forall|k: Seq<char>| #[trigger] config_entries(config).contains_key(k) implies exists|j: int|
        0 <= j < entries@.len() && kept(entries@[j]) && entries@[j].name@ == k && entries@[j].value->0@
            == config_entries(config)[k] by {
        let j = choose|j: int|
            0 <= j < sorted@.len() && kept(sorted@[j]) && sorted@[j].name@ == k && sorted@[j].value->0@
                == config_entries(config)[k];
        let m = choose|m: int| 0 <= m < entries@.len() && sorted@[j] == entries@[m];
        assert(entries@[m] == sorted@[j]);
    }
    assert forall|k: Seq<char>|
        (exists|j: int| 0 <= j < entries@.len() && kept(entries@[j]) && entries@[j].name@ == k) implies
        #[trigger] config_entries(config).contains_key(k) by {
        let j = choose|j: int| 0 <= j < entries@.len() && kept(entries@[j]) && entries@[j].name@ == k;
        let m = choose|m: int| 0 <= m < sorted@.len() && sorted@[m] == entries@[j];
        assert(sorted@[m] == entries@[j]);
    }
    KafkaTopic { partitions, replication_factor, config }
}

/// Example resources, one of each kind, at placeholder addresses: a topic with
/// 3 partitions, 2 replicas, a week of retention and snappy compression, and
/// the default ACL and quota.
pub fn resource_skeletons() -> (r: Vec<(KafkaResourceAddress, KafkaResource)>)
    ensures
        r@.len() == 3,
        r@[0].0@ == (AddressModel::Topic { cluster: "[cluster_name]"@, topic: "[topic_name]"@ }),
        r@[0].1 matches KafkaResource::Topic(t) && t.partitions == 3 && t.replication_factor == 2
            && config_entries(t.config) == no_entries().insert("retention.ms"@, "604800000"@).insert(
            "compression.type"@,
            "snappy"@,
        ) && config_keys(t.config) == seq!["retention.ms"@, "compression.type"@],
        r@[1].0@ == (AddressModel::Acl { cluster: "[cluster_name]"@, acl_id: "[acl_identifier]"@ }),
        r@[1].1 matches KafkaResource::Acl(a) && a@ == default_acl(),
        r@[2].0@ == (AddressModel::Quota { cluster: "[cluster_name]"@, quota_id: "[quota_identifier]"@ }),
        r@[2].1 matches KafkaResource::Quota(q) && q.entities@.len() == 0 && q.producer_byte_rate is None
            && q.consumer_byte_rate is None && q.request_percentage is None,
{
    proof {
        reveal_strlit("retention.ms");
        reveal_strlit("compression.type");
        assert("retention.ms"@[0] != "compression.type"@[0]);
    }
    let mut config = empty_config();
    config_insert(&mut config, String::from_str("retention.ms"), String::from_str("604800000"));
    config_insert(&mut config, String::from_str("compression.type"), String::from_str("snappy"));
    let topic = KafkaTopic { partitions: 3, replication_factor: 2, config };
    let mut r: Vec<(KafkaResourceAddress, KafkaResource)> = Vec::new();
    r.push(
        (
            KafkaResourceAddress::Topic {
                cluster: String::from_str("[cluster_name]"),
                topic: String::from_str("[topic_name]"),
            },
            KafkaResource::Topic(topic),
        ),
    );
    r.push(
        (
            KafkaResourceAddress::Acl {
                cluster: String::from_str("[cluster_name]"),
                acl_id: String::from_str("[acl_identifier]"),
            },
            KafkaResource::Acl(KafkaAcl::default()),
        ),
    );
    r.push(
        (
            KafkaResourceAddress::Quota {
                cluster: String::from_str("[cluster_name]"),
                quota_id: String::from_str("[quota_identifier]"),
            },
            KafkaResource::Quota(KafkaQuota::default()),
        ),
    );
    r
}

} // verus!
