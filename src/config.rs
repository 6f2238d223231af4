//! The connector's declared configuration, and the client settings that each
//! cluster's configuration calls for.

use vstd::prelude::*;

use std::collections::hash_map::RandomState;
use std::collections::HashMap;

use vstd::std_specs::hash::{builds_valid_hashers, obeys_key_model};
use std::time::Duration;

use rdkafka::config::ClientConfig;

verus! {

/// How the connector authenticates to a cluster.
#[derive(Clone, Debug, PartialEq, Eq)]
pub enum KafkaAuth {
    /// A plain connection.
    NoAuth,
    SaslPlain { username: String, password: String },
    SaslScramSha256 { username: String, password: String },
    SaslScramSha512 { username: String, password: String },
    /// Kerberos.
    SaslGssapi { principal: String, keytab_path: Option<String> },
}

/// TLS settings of a cluster connection.
#[derive(Clone, Debug, PartialEq, Eq)]
pub struct KafkaTlsConfig {
    /// CA certificate that broker certificates are checked against.
    pub ca_cert_path: Option<String>,
    /// Client certificate, for mutual TLS.
    pub client_cert_path: Option<String>,
    /// Client private key, for mutual TLS.
    pub client_key_path: Option<String>,
    /// Whether broker certificates are checked.
    pub verify_certificate: bool,
}

impl Default for KafkaTlsConfig {
    fn default() -> (r: KafkaTlsConfig)
        ensures
            r.ca_cert_path is None,
            r.client_cert_path is None,
            r.client_key_path is None,
            r.verify_certificate,
    {
        KafkaTlsConfig {
            ca_cert_path: None,
            client_cert_path: None,
            client_key_path: None,
            verify_certificate: true,
        }
    }
}

/// How to reach one cluster.
#[derive(Clone, Debug, PartialEq, Eq)]
pub struct KafkaClusterConfig {
    /// Comma-separated `host:port` list of brokers.
    pub bootstrap_servers: String,
    pub auth: KafkaAuth,
    pub tls: Option<KafkaTlsConfig>,
    /// Further client properties, applied last and in this order.
    pub additional_config: Vec<(String, String)>,
}

/// The settings of a cluster by default: brokers at `localhost:9092`, no
/// authentication, no TLS, no further properties.
pub open spec fn is_default_cluster(c: KafkaClusterConfig) -> bool {
    &&& c.bootstrap_servers@ == "localhost:9092"@
    &&& c.auth == KafkaAuth::NoAuth
    &&& c.tls is None
    &&& c.additional_config@.len() == 0
}

impl Default for KafkaClusterConfig {
    fn default() -> (r: KafkaClusterConfig)
        ensures
            is_default_cluster(r),
    {
        KafkaClusterConfig {
            bootstrap_servers: String::from_str("localhost:9092"),
            auth: KafkaAuth::NoAuth,
            tls: None,
            additional_config: Vec::new(),
        }
    }
}

/// The connector's configuration: its clusters by name, and the limits of remote calls.
#[derive(Clone, Debug, PartialEq, Eq)]
pub struct KafkaConnectorConfig {
    pub clusters: HashMap<String, KafkaClusterConfig>,
    /// Time limit of each remote admin operation, in milliseconds.
    pub operation_timeout_ms: u64,
    /// How many remote admin calls may be in flight at once, over all clusters.
    pub concurrent_requests: usize,
}

impl Default for KafkaConnectorConfig {
    /// One cluster named `default`, with the default cluster settings.
    fn default() -> (r: KafkaConnectorConfig)
        ensures
            r.operation_timeout_ms == 30000,
            r.concurrent_requests == 10,
            obeys_key_model::<String>() && builds_valid_hashers::<RandomState>() ==> exists|k: String|
                k@ == "default"@ && r.clusters@.dom() == set![k] && is_default_cluster(
                    #[trigger] r.clusters@[k],
                ),
    {
        let mut clusters: HashMap<String, KafkaClusterConfig> = HashMap::new();
        let name = String::from_str("default");
        let ghost key = name;
        let cluster = KafkaClusterConfig::default();
        let ghost value = cluster;
        clusters.insert(name, cluster);
        proof {
            if obeys_key_model::<String>() && builds_valid_hashers::<RandomState>() {
                assert(clusters@ == Map::<String, KafkaClusterConfig>::empty().insert(key, value));
                assert(clusters@.dom() =~= set![key]);
                assert(is_default_cluster(clusters@[key]));
                assert(key@ == "default"@ && clusters@.dom() == set![key] && is_default_cluster(
                    clusters@[key],
                ));
            }
        }
        let r = KafkaConnectorConfig { clusters, operation_timeout_ms: 30000, concurrent_requests: 10 };
        assert(r.clusters@ == clusters@);
        r
    }
}

/// The duration of `ms` milliseconds.
pub uninterp spec fn duration_of_millis(ms: u64) -> Duration;

/// Relies on `Duration::from_millis`: the result depends on its argument alone.
pub assume_specification[ Duration::from_millis ](millis: u64) -> (r: Duration)
    ensures
        r == duration_of_millis(millis),
;

/// The time limit of one remote admin operation.
pub fn get_operation_timeout(timeout_ms: u64) -> (r: Duration)
    ensures
        r == duration_of_millis(timeout_ms),
{
    Duration::from_millis(timeout_ms)
}

/// A client property: its name and its value.
pub type Setting = (Seq<char>, Seq<char>);

pub open spec fn settings_view(v: Seq<(String, String)>) -> Seq<Setting> {
    v.map_values(|p: (String, String)| (p.0@, p.1@))
}

pub open spec fn optional_setting(key: Seq<char>, value: Option<String>) -> Seq<Setting> {
    match value {
        Some(v) => seq![(key, v@)],
        None => seq![],
    }
}

pub open spec fn sasl_settings(mechanism: Seq<char>, username: String, password: String) -> Seq<Setting> {
    seq![
        ("security.protocol"@, "SASL_PLAINTEXT"@),
        ("sasl.mechanism"@, mechanism),
        ("sasl.username"@, username@),
        ("sasl.password"@, password@),
    ]
}

/// The properties that an authentication method sets.
pub open spec fn auth_settings(auth: KafkaAuth) -> Seq<Setting> {
    match auth {
        KafkaAuth::NoAuth => seq![],
        KafkaAuth::SaslPlain { username, password } => sasl_settings("PLAIN"@, username, password),
        KafkaAuth::SaslScramSha256 { username, password } => sasl_settings(
            "SCRAM-SHA-256"@,
            username,
            password,
        ),
        KafkaAuth::SaslScramSha512 { username, password } => sasl_settings(
            "SCRAM-SHA-512"@,
            username,
            password,
        ),
        KafkaAuth::SaslGssapi { principal, keytab_path } => seq![
            ("security.protocol"@, "SASL_PLAINTEXT"@),
            ("sasl.mechanism"@, "GSSAPI"@),
            ("sasl.kerberos.principal"@, principal@),
        ] + optional_setting("sasl.kerberos.keytab"@, keytab_path),
    }
}

/// The properties that TLS sets: it wraps SASL in TLS, or a plain connection.
pub open spec fn tls_settings(auth: KafkaAuth, tls: KafkaTlsConfig) -> Seq<Setting> {
    seq![
        (
            "security.protocol"@,
            if auth is NoAuth {
                "SSL"@
            } else {
                "SASL_SSL"@
            },
        ),
    ] + optional_setting("ssl.ca.location"@, tls.ca_cert_path) + optional_setting(
        "ssl.certificate.location"@,
        tls.client_cert_path,
    ) + optional_setting("ssl.key.location"@, tls.client_key_path) + if tls.verify_certificate {
        Seq::<Setting>::empty()
    } else {
        seq![("enable.ssl.certificate.verification"@, "false"@)]
    }
}

/// Every client property that a cluster's configuration sets, in the order of
/// setting; a later one overrides an earlier one of the same name.
pub open spec fn cluster_settings(c: KafkaClusterConfig) -> Seq<Setting> {
    seq![("bootstrap.servers"@, c.bootstrap_servers@)] + auth_settings(c.auth) + match c.tls {
        Some(t) => tls_settings(c.auth, t),
        None => Seq::<Setting>::empty(),
    } + settings_view(c.additional_config@)
}

/// The property map after setting `s` in order, starting from `m`.
pub open spec fn apply_settings(m: Map<Seq<char>, Seq<char>>, s: Seq<Setting>) -> Map<Seq<char>, Seq<char>>
    decreases s.len(),
{
    if s.len() == 0 {
        m
    } else {
        apply_settings(m, s.drop_last()).insert(s.last().0, s.last().1)
    }
}

fn push_setting(v: &mut Vec<(String, String)>, key: &str, value: &str)
    ensures
        settings_view(final(v)@) == settings_view(old(v)@).push((key@, value@)),
{
    v.push((String::from_str(key), String::from_str(value)));
    assert(settings_view(v@) =~= settings_view(old(v)@).push((key@, value@)));
}

fn push_optional(v: &mut Vec<(String, String)>, key: &str, value: &Option<String>)
    ensures
        settings_view(final(v)@) == settings_view(old(v)@) + optional_setting(key@, *value),
{
    match value {
        Some(s) => push_setting(v, key, s.as_str()),
        None => {
            assert(settings_view(v@) =~= settings_view(v@) + optional_setting(key@, *value));
        },
    }
}

fn push_sasl(v: &mut Vec<(String, String)>, mechanism: &str, username: &String, password: &String)
    ensures
        settings_view(final(v)@) == settings_view(old(v)@) + sasl_settings(mechanism@, *username, *password),
{
    push_setting(v, "security.protocol", "SASL_PLAINTEXT");
    push_setting(v, "sasl.mechanism", mechanism);
    push_setting(v, "sasl.username", username.as_str());
    push_setting(v, "sasl.password", password.as_str());
    assert(settings_view(v@) =~= settings_view(old(v)@) + sasl_settings(mechanism@, *username, *password));
}

/// The client properties, in order of setting, that connect to the cluster
/// described by `c`.
pub fn client_settings(c: &KafkaClusterConfig) -> (r: Vec<(String, String)>)
    ensures
        settings_view(r@) == cluster_settings(*c),
{
    let mut v: Vec<(String, String)> = Vec::new();
    push_setting(&mut v, "bootstrap.servers", c.bootstrap_servers.as_str());
    let ghost head = settings_view(v@);
    assert(head =~= seq![("bootstrap.servers"@, c.bootstrap_servers@)]);
    match &c.auth {
        KafkaAuth::NoAuth => {},
        KafkaAuth::SaslPlain { username, password } => push_sasl(&mut v, "PLAIN", username, password),
        KafkaAuth::SaslScramSha256 { username, password } => push_sasl(
            &mut v,
            "SCRAM-SHA-256",
            username,
            password,
        ),
        KafkaAuth::SaslScramSha512 { username, password } => push_sasl(
            &mut v,
            "SCRAM-SHA-512",
            username,
            password,
        ),
        KafkaAuth::SaslGssapi { principal, keytab_path } => {
            push_setting(&mut v, "security.protocol", "SASL_PLAINTEXT");
            push_setting(&mut v, "sasl.mechanism", "GSSAPI");
            push_setting(&mut v, "sasl.kerberos.principal", principal.as_str());
            push_optional(&mut v, "sasl.kerberos.keytab", keytab_path);
        },
    }
    let ghost after_auth = settings_view(v@);
    assert(after_auth =~= head + auth_settings(c.auth));
    match &c.tls {
        Some(tls) => {
            let protocol = match &c.auth {
                KafkaAuth::NoAuth => "SSL",
                _ => "SASL_SSL",
            };
            push_setting(&mut v, "security.protocol", protocol);
            push_optional(&mut v, "ssl.ca.location", &tls.ca_cert_path);
            push_optional(&mut v, "ssl.certificate.location", &tls.client_cert_path);
            push_optional(&mut v, "ssl.key.location", &tls.client_key_path);
            if !tls.verify_certificate {
                push_setting(&mut v, "enable.ssl.certificate.verification", "false");
            }
            assert(settings_view(v@) =~= after_auth + tls_settings(c.auth, *tls));
        },
        None => {},
    }
    let ghost after_tls = settings_view(v@);
    let mut i: usize = 0;
    while i < c.additional_config.len()
        invariant
            i <= c.additional_config@.len(),
            settings_view(v@) == after_tls + settings_view(c.additional_config@.take(i as int)),
        decreases c.additional_config@.len() - i,
    {
        let pair = &c.additional_config[i];
        push_setting(&mut v, pair.0.as_str(), pair.1.as_str());
        assert(settings_view(c.additional_config@.take(i + 1)) =~= settings_view(
            c.additional_config@.take(i as int),
        ).push((pair.0@, pair.1@)));
        i = i + 1;
    }
    assert(c.additional_config@.take(i as int) =~= c.additional_config@);
    assert(settings_view(v@) =~= cluster_settings(*c));
    v
}

#[verifier::external_type_specification]
#[verifier::external_body]
pub struct ExClientConfig(ClientConfig);

/// The properties that a client configuration holds, by name.
pub uninterp spec fn client_properties(c: ClientConfig) -> Map<Seq<char>, Seq<char>>;

pub open spec fn no_properties() -> Map<Seq<char>, Seq<char>> {
    Map::empty()
}

/// Relies on `ClientConfig::new`: a configuration without properties.
#[verifier::external_body]
fn new_client_config() -> (r: ClientConfig)
    ensures
        client_properties(r) == no_properties(),
{
    ClientConfig::new()
}

/// Relies on `ClientConfig::set`: the property `key` now has `value`, replacing
/// an earlier value; the others are kept.
#[verifier::external_body]
fn set_client_property(c: &mut ClientConfig, key: &str, value: &str)
    ensures
        client_properties(*final(c)) == client_properties(*old(c)).insert(key@, value@),
{
    c.set(key, value);
}

/// The client configuration for the cluster described by `c`: each of its
/// settings applied in order.
pub fn admin_client_config(c: &KafkaClusterConfig) -> (r: ClientConfig)
    ensures
        client_properties(r) == apply_settings(no_properties(), cluster_settings(*c)),
{
    let settings = client_settings(c);
    let mut config = new_client_config();
    let mut i: usize = 0;
    while i < settings.len()
        invariant
            i <= settings@.len(),
            settings_view(settings@) == cluster_settings(*c),
            client_properties(config) == apply_settings(
                no_properties(),
                settings_view(settings@).take(i as int),
            ),
        decreases settings@.len() - i,
    {
        let pair = &settings[i];
        set_client_property(&mut config, pair.0.as_str(), pair.1.as_str());
        let ghost s = settings_view(settings@);
        assert(s.take(i + 1).drop_last() =~= s.take(i as int));
        i = i + 1;
    }
    assert(settings_view(settings@).take(i as int) =~= settings_view(settings@));
    config
}

} // verus!
