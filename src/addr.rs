//! Addresses of the connector's resources, and their path form.
//!
//! Paths are `/`-separated and case-sensitive:
//! `kafka/config.ron`, `kafka/<cluster>/topics/<topic>.ron`,
//! `kafka/<cluster>/acls/<acl_id>.ron`, `kafka/<cluster>/quotas/<quota_id>.ron`
//! and `kafka/task.ron`.

use vstd::prelude::*;

use crate::text::{join2, same_text};

verus! {

/// A control-plane task request. Tasks carry no persisted state.
#[derive(Debug, Clone, PartialEq, Eq)]
pub struct KafkaTask {
    /// Free-form name of the task; empty when the task was named by path alone.
    pub name: String,
}

/// Locates one resource of the connector, or the connector's own configuration.
#[derive(Debug, Clone, PartialEq, Eq)]
pub enum KafkaResourceAddress {
    /// The cluster-list configuration, at `kafka/config.ron`.
    Config,
    /// A topic, at `kafka/{cluster}/topics/{topic}.ron`.
    Topic { cluster: String, topic: String },
    /// An ACL, at `kafka/{cluster}/acls/{acl_id}.ron`.
    Acl { cluster: String, acl_id: String },
    /// A quota, at `kafka/{cluster}/quotas/{quota_id}.ron`.
    Quota { cluster: String, quota_id: String },
    /// A task request, at `kafka/task.ron`.
    Task { kind: KafkaTask },
}

/// The mathematical value of an address.
pub enum AddressModel {
    Config,
    Topic { cluster: Seq<char>, topic: Seq<char> },
    Acl { cluster: Seq<char>, acl_id: Seq<char> },
    Quota { cluster: Seq<char>, quota_id: Seq<char> },
    Task { name: Seq<char> },
}

impl View for KafkaResourceAddress {
    type V = AddressModel;

    open spec fn view(&self) -> AddressModel {
        match self {
            KafkaResourceAddress::Config => AddressModel::Config,
            KafkaResourceAddress::Topic { cluster, topic } => AddressModel::Topic {
                cluster: cluster@,
                topic: topic@,
            },
            KafkaResourceAddress::Acl { cluster, acl_id } => AddressModel::Acl {
                cluster: cluster@,
                acl_id: acl_id@,
            },
            KafkaResourceAddress::Quota { cluster, quota_id } => AddressModel::Quota {
                cluster: cluster@,
                quota_id: quota_id@,
            },
            KafkaResourceAddress::Task { kind } => AddressModel::Task { name: kind.name@ },
        }
    }
}

/// Why a path names no address.
#[derive(Debug, Clone, PartialEq, Eq)]
pub enum AddressError {
    /// The path matches none of the address shapes.
    InvalidAddress { path: String },
}

pub open spec fn word_kafka() -> Seq<char> {
    seq!['k', 'a', 'f', 'k', 'a']
}

pub open spec fn word_config_file() -> Seq<char> {
    seq!['c', 'o', 'n', 'f', 'i', 'g', '.', 'r', 'o', 'n']
}

pub open spec fn word_task_file() -> Seq<char> {
    seq!['t', 'a', 's', 'k', '.', 'r', 'o', 'n']
}

pub open spec fn word_topics() -> Seq<char> {
    seq!['t', 'o', 'p', 'i', 'c', 's']
}

pub open spec fn word_acls() -> Seq<char> {
    seq!['a', 'c', 'l', 's']
}

pub open spec fn word_quotas() -> Seq<char> {
    seq!['q', 'u', 'o', 't', 'a', 's']
}

/// The file suffix of every resource file.
pub open spec fn ron_suffix() -> Seq<char> {
    seq!['.', 'r', 'o', 'n']
}

/// Whether `s` contains no separator.
pub open spec fn no_slash(s: Seq<char>) -> bool {
    forall|i: int| 0 <= i < s.len() ==> s[i] != '/'
}

/// Splits `s` at every `/`, the first segment starting with the characters `cur`.
pub open spec fn split_from(s: Seq<char>, cur: Seq<char>) -> Seq<Seq<char>>
    decreases s.len(),
{
    if s.len() == 0 {
        seq![cur]
    } else if s[0] == '/' {
        seq![cur] + split_from(s.drop_first(), seq![])
    } else {
        split_from(s.drop_first(), cur.push(s[0]))
    }
}

/// The `/`-separated segments of a path (a path without `/` is one segment).
pub open spec fn segments(p: Seq<char>) -> Seq<Seq<char>> {
    split_from(p, seq![])
}

pub open spec fn has_ron_suffix(s: Seq<char>) -> bool {
    s.len() >= 4 && s.subrange(s.len() - 4, s.len() as int) == ron_suffix()
}

pub open spec fn strip_ron(s: Seq<char>) -> Seq<char> {
    s.subrange(0, s.len() - 4)
}

/// Whether segments `g` have the shape `kafka/<cluster>/<kind_word>/<id>.ron`.
pub open spec fn is_resource_shape(g: Seq<Seq<char>>, kind_word: Seq<char>) -> bool {
    &&& g.len() == 4
    &&& g[0] == word_kafka()
    &&& g[1].len() > 0
    &&& g[2] == kind_word
    &&& has_ron_suffix(g[3])
}

/// The address that a path names, if any.
pub open spec fn decode_spec(p: Seq<char>) -> Option<AddressModel> {
    let g = segments(p);
    if g.len() == 2 && g[0] == word_kafka() && g[1] == word_config_file() {
        Some(AddressModel::Config)
    } else if g.len() == 2 && g[0] == word_kafka() && g[1] == word_task_file() {
        Some(AddressModel::Task { name: seq![] })
    } else if is_resource_shape(g, word_topics()) {
        Some(AddressModel::Topic { cluster: g[1], topic: strip_ron(g[3]) })
    } else if is_resource_shape(g, word_acls()) {
        Some(AddressModel::Acl { cluster: g[1], acl_id: strip_ron(g[3]) })
    } else if is_resource_shape(g, word_quotas()) {
        Some(AddressModel::Quota { cluster: g[1], quota_id: strip_ron(g[3]) })
    } else {
        None
    }
}

/// `kafka/<cluster>/<kind_word>/<id>.ron`
pub open spec fn resource_path(cluster: Seq<char>, kind_word: Seq<char>, id: Seq<char>) -> Seq<char> {
    word_kafka() + seq!['/'] + cluster + seq!['/'] + kind_word + seq!['/'] + id + ron_suffix()
}

/// The canonical path of an address.
pub open spec fn encode_spec(a: AddressModel) -> Seq<char> {
    match a {
        AddressModel::Config => word_kafka() + seq!['/'] + word_config_file(),
        AddressModel::Topic { cluster, topic } => resource_path(cluster, word_topics(), topic),
        AddressModel::Acl { cluster, acl_id } => resource_path(cluster, word_acls(), acl_id),
        AddressModel::Quota { cluster, quota_id } => resource_path(cluster, word_quotas(), quota_id),
        AddressModel::Task { .. } => word_kafka() + seq!['/'] + word_task_file(),
    }
}

/// Whether an address can be written as a path and read back: the cluster name
/// is non-empty and neither it nor the identifier holds a `/`.
pub open spec fn addressable(a: AddressModel) -> bool {
    match a {
        AddressModel::Config => true,
        AddressModel::Topic { cluster, topic } => cluster.len() > 0 && no_slash(cluster) && no_slash(topic),
        AddressModel::Acl { cluster, acl_id } => cluster.len() > 0 && no_slash(cluster) && no_slash(acl_id),
        AddressModel::Quota { cluster, quota_id } => cluster.len() > 0 && no_slash(cluster) && no_slash(quota_id),
        AddressModel::Task { .. } => false,
    }
}

proof fn lemma_split_plain(a: Seq<char>, cur: Seq<char>)
    requires
        no_slash(a),
    ensures
        split_from(a, cur) == seq![cur + a],
    decreases a.len(),
{
    if a.len() == 0 {
        assert(cur + a =~= cur);
    } else {
        lemma_split_plain(a.drop_first(), cur.push(a[0]));
        assert(cur.push(a[0]) + a.drop_first() =~= cur + a);
    }
}

proof fn lemma_split_at_slash(a: Seq<char>, b: Seq<char>, cur: Seq<char>)
    requires
        no_slash(a),
    ensures
        split_from(a + seq!['/'] + b, cur) == seq![cur + a] + split_from(b, seq![]),
    decreases a.len(),
{
    let s = a + seq!['/'] + b;
    if a.len() == 0 {
        assert(s.drop_first() =~= b);
        assert(cur + a =~= cur);
    } else {
        assert(s.drop_first() =~= a.drop_first() + seq!['/'] + b);
        lemma_split_at_slash(a.drop_first(), b, cur.push(a[0]));
        assert(cur.push(a[0]) + a.drop_first() =~= cur + a);
    }
}

proof fn lemma_segments_of_resource_path(cluster: Seq<char>, kind_word: Seq<char>, id: Seq<char>)
    requires
        no_slash(cluster),
        no_slash(kind_word),
        no_slash(id),
    ensures
        segments(resource_path(cluster, kind_word, id)) == seq![word_kafka(), cluster, kind_word, id + ron_suffix()],
{
    let last = id + ron_suffix();
    assert(no_slash(last));
    let tail2 = kind_word + seq!['/'] + last;
    let tail1 = cluster + seq!['/'] + tail2;
    assert(resource_path(cluster, kind_word, id) =~= word_kafka() + seq!['/'] + tail1);
    lemma_split_at_slash(word_kafka(), tail1, seq![]);
    lemma_split_at_slash(cluster, tail2, seq![]);
    lemma_split_at_slash(kind_word, last, seq![]);
    lemma_split_plain(last, seq![]);
    assert(seq![] + word_kafka() =~= word_kafka());
    assert(Seq::<char>::empty() + cluster =~= cluster);
    assert(Seq::<char>::empty() + kind_word =~= kind_word);
    assert(Seq::<char>::empty() + last =~= last);
    assert(segments(resource_path(cluster, kind_word, id)) =~= seq![word_kafka(), cluster, kind_word, last]);
}

proof fn lemma_segments_of_root_file(file: Seq<char>)
    requires
        no_slash(file),
    ensures
        segments(word_kafka() + seq!['/'] + file) == seq![word_kafka(), file],
{
    lemma_split_at_slash(word_kafka(), file, seq![]);
    lemma_split_plain(file, seq![]);
    assert(seq![] + word_kafka() =~= word_kafka());
    assert(Seq::<char>::empty() + file =~= file);
    assert(segments(word_kafka() + seq!['/'] + file) =~= seq![word_kafka(), file]);
}

/// Decoding the canonical path of any addressable address gives that address back.
pub proof fn lemma_decode_encode(a: AddressModel)
    requires
        addressable(a),
    ensures
        decode_spec(encode_spec(a)) == Some(a),
{
    assert(no_slash(word_kafka()));
    assert(no_slash(word_topics()));
    assert(no_slash(word_acls()));
    assert(no_slash(word_quotas()));
    assert(no_slash(word_config_file()));
    assert(word_topics() != word_kafka());
    match a {
        AddressModel::Config => {
            lemma_segments_of_root_file(word_config_file());
        },
        AddressModel::Topic { cluster, topic } => {
            lemma_segments_of_resource_path(cluster, word_topics(), topic);
            let last = topic + ron_suffix();
            assert(last.subrange(last.len() - 4, last.len() as int) =~= ron_suffix());
            assert(strip_ron(last) =~= topic);
        },
        AddressModel::Acl { cluster, acl_id } => {
            lemma_segments_of_resource_path(cluster, word_acls(), acl_id);
            let last = acl_id + ron_suffix();
            assert(last.subrange(last.len() - 4, last.len() as int) =~= ron_suffix());
            assert(strip_ron(last) =~= acl_id);
            assert(word_acls() != word_topics());
        },
        AddressModel::Quota { cluster, quota_id } => {
            lemma_segments_of_resource_path(cluster, word_quotas(), quota_id);
            let last = quota_id + ron_suffix();
            assert(last.subrange(last.len() - 4, last.len() as int) =~= ron_suffix());
            assert(strip_ron(last) =~= quota_id);
            assert(word_quotas() != word_topics());
            assert(word_quotas() != word_acls());
        },
        AddressModel::Task { .. } => {},
    }
}

/// A path whose segment count is neither two nor four, or whose first segment
/// is not `kafka`, or whose last segment lacks the `.ron` suffix, names no address.
pub proof fn lemma_decode_rejects_malformed(p: Seq<char>)
    requires
        ({
            let g = segments(p);
            ||| (g.len() != 2 && g.len() != 4)
            ||| g[0] != word_kafka()
            ||| !has_ron_suffix(g.last())
        }),
    ensures
        decode_spec(p) is None,
{
    let g = segments(p);
    let c = word_config_file();
    let t = word_task_file();
    assert(c.subrange(c.len() - 4, c.len() as int) =~= ron_suffix());
    assert(t.subrange(t.len() - 4, t.len() as int) =~= ron_suffix());
}

/// Splits a path into its `/`-separated segments.
fn split_path<'a>(path: &'a str) -> (r: Vec<&'a str>)
    ensures
        r@.map_values(|x: &str| x@) == segments(path@),
{
    let n = path.unicode_len();
    let mut out: Vec<&'a str> = Vec::new();
    let mut start: usize = 0;
    let mut i: usize = 0;
    assert(path@.subrange(0, n as int) =~= path@);
    assert(path@.subrange(0, 0) =~= Seq::<char>::empty());
    assert(out@.map_values(|x: &str| x@) =~= Seq::<Seq<char>>::empty());
    assert(Seq::<Seq<char>>::empty() + segments(path@) =~= segments(path@));
    while i < n
        invariant
            n == path@.len(),
            start <= i <= n,
            out@.map_values(|x: &str| x@) + split_from(
                path@.subrange(i as int, n as int),
                path@.subrange(start as int, i as int),
            ) == segments(path@),
        decreases n - i,
    {
        let c = path.get_char(i);
        let ghost rest = path@.subrange(i as int, n as int);
        assert(rest.drop_first() =~= path@.subrange(i + 1, n as int));
        assert(rest[0] == c);
        if c == '/' {
            let seg = path.substring_char(start, i);
            let ghost before = out@.map_values(|x: &str| x@);
            out.push(seg);
            assert(out@.map_values(|x: &str| x@) =~= before.push(seg@));
            assert(path@.subrange((i + 1) as int, (i + 1) as int) =~= Seq::<char>::empty());
            assert(before.push(seg@) + split_from(path@.subrange(i + 1, n as int), seq![]) =~= before
                + split_from(rest, path@.subrange(start as int, i as int)));
            start = i + 1;
        } else {
            assert(path@.subrange(start as int, i as int).push(c) =~= path@.subrange(
                start as int,
                i + 1,
            ));
        }
        i = i + 1;
    }
    let last = path.substring_char(start, n);
    let ghost before = out@.map_values(|x: &str| x@);
    out.push(last);
    assert(out@.map_values(|x: &str| x@) =~= before.push(last@));
    assert(before.push(last@) =~= before + seq![last@]);
    out
}

/// The identifier in front of a `.ron` suffix, if `s` has that suffix.
fn strip_ron_suffix<'a>(s: &'a str) -> (r: Option<&'a str>)
    ensures
        r is Some <==> has_ron_suffix(s@),
        r matches Some(x) ==> x@ == strip_ron(s@),
{
    let n = s.unicode_len();
    if n >= 4 && s.get_char(n - 4) == '.' && s.get_char(n - 3) == 'r' && s.get_char(n - 2) == 'o'
        && s.get_char(n - 1) == 'n' {
        assert(s@.subrange(n - 4, n as int) =~= ron_suffix());
        Some(s.substring_char(0, n - 4))
    } else {
        proof {
            if has_ron_suffix(s@) {
                assert(s@.subrange(n - 4, n as int)[0] == '.');
                assert(s@.subrange(n - 4, n as int)[1] == 'r');
                assert(s@.subrange(n - 4, n as int)[2] == 'o');
                assert(s@.subrange(n - 4, n as int)[3] == 'n');
            }
        }
        None
    }
}

impl KafkaResourceAddress {
    /// The canonical path of this address.
    pub fn to_path(&self) -> (r: String)
        ensures
            r@ == encode_spec(self@),
    {
        proof {
            reveal_strlit("kafka/config.ron");
            reveal_strlit("kafka/task.ron");
            reveal_strlit("kafka/");
            reveal_strlit("/topics/");
            reveal_strlit("/acls/");
            reveal_strlit("/quotas/");
            reveal_strlit(".ron");
        }
        match self {
            KafkaResourceAddress::Config => {
                let r = String::from_str("kafka/config.ron");
                assert(r@ =~= encode_spec(self@));
                r
            },
            KafkaResourceAddress::Topic { cluster, topic } => {
                let r = resource_file_path(cluster.as_str(), "/topics/", topic.as_str());
                assert(r@ =~= encode_spec(self@));
                r
            },
            KafkaResourceAddress::Acl { cluster, acl_id } => {
                let r = resource_file_path(cluster.as_str(), "/acls/", acl_id.as_str());
                assert(r@ =~= encode_spec(self@));
                r
            },
            KafkaResourceAddress::Quota { cluster, quota_id } => {
                let r = resource_file_path(cluster.as_str(), "/quotas/", quota_id.as_str());
                assert(r@ =~= encode_spec(self@));
                r
            },
            KafkaResourceAddress::Task { .. } => {
                let r = String::from_str("kafka/task.ron");
                assert(r@ =~= encode_spec(self@));
                r
            },
        }
    }

    /// The address that `path` names, or `InvalidAddress` when it matches no shape.
    pub fn from_path(path: &str) -> (r: Result<KafkaResourceAddress, AddressError>)
        ensures
            match r {
                Ok(a) => decode_spec(path@) == Some(a@),
                Err(AddressError::InvalidAddress { path: p }) => decode_spec(path@) is None && p@
                    == path@,
            },
    {
        proof {
            reveal_strlit("kafka");
            reveal_strlit("config.ron");
            reveal_strlit("task.ron");
            reveal_strlit("topics");
            reveal_strlit("acls");
            reveal_strlit("quotas");
            assert("kafka"@ =~= word_kafka());
            assert("config.ron"@ =~= word_config_file());
            assert("task.ron"@ =~= word_task_file());
            assert("topics"@ =~= word_topics());
            assert("acls"@ =~= word_acls());
            assert("quotas"@ =~= word_quotas());
        }
        let g = split_path(path);
        let ghost gv = g@.map_values(|x: &str| x@);
        assert(gv.len() == g@.len());
        assert(forall|k: int| 0 <= k < g@.len() ==> gv[k] == g@[k]@);
        if g.len() == 2 && same_text(g[0], "kafka") {
            if same_text(g[1], "config.ron") {
                return Ok(KafkaResourceAddress::Config);
            }
            if same_text(g[1], "task.ron") {
                return Ok(KafkaResourceAddress::Task { kind: KafkaTask { name: String::new() } });
            }
        }
        if g.len() == 4 && same_text(g[0], "kafka") && g[1].unicode_len() > 0 {
            let cluster = g[1];
            if let Some(id) = strip_ron_suffix(g[3]) {
                if same_text(g[2], "topics") {
                    return Ok(
                        KafkaResourceAddress::Topic {
                            cluster: String::from_str(cluster),
                            topic: String::from_str(id),
                        },
                    );
                }
                if same_text(g[2], "acls") {
                    return Ok(
                        KafkaResourceAddress::Acl {
                            cluster: String::from_str(cluster),
                            acl_id: String::from_str(id),
                        },
                    );
                }
                if same_text(g[2], "quotas") {
                    return Ok(
                        KafkaResourceAddress::Quota {
                            cluster: String::from_str(cluster),
                            quota_id: String::from_str(id),
                        },
                    );
                }
            }
        }
        Err(AddressError::InvalidAddress { path: String::from_str(path) })
    }
}

/// `kafka/` + `cluster` + `middle` + `id` + `.ron`
fn resource_file_path(cluster: &str, middle: &str, id: &str) -> (r: String)
    ensures
        r@ == "kafka/"@ + cluster@ + middle@ + id@ + ".ron"@,
{
    let mut r = join2("kafka/", cluster);
    r.append(middle);
    r.append(id);
    r.append(".ron");
    r
}

} // verus!
