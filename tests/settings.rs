use std::time::Duration;

use kafka_connector::config::{
    admin_client_config, client_settings, get_operation_timeout, KafkaAuth, KafkaClusterConfig,
    KafkaConnectorConfig, KafkaTlsConfig,
};

fn pairs(v: &[(&str, &str)]) -> Vec<(String, String)> {
    v.iter().map(|(k, v)| (k.to_string(), v.to_string())).collect()
}

#[test]
fn operation_timeout_in_millis() {
    assert_eq!(get_operation_timeout(1500), Duration::from_millis(1500));
    assert_eq!(get_operation_timeout(0), Duration::ZERO);
}

#[test]
fn defaults() {
    let c = KafkaConnectorConfig::default();
    assert_eq!(c.operation_timeout_ms, 30000);
    assert_eq!(c.concurrent_requests, 10);
    assert_eq!(c.clusters.get("default"), Some(&KafkaClusterConfig::default()));
    let k = KafkaClusterConfig::default();
    assert_eq!(k.bootstrap_servers, "localhost:9092");
    assert_eq!(k.auth, KafkaAuth::NoAuth);
    assert!(KafkaTlsConfig::default().verify_certificate);
}

#[test]
fn plain_cluster_sets_only_brokers() {
    let c = KafkaClusterConfig::default();
    assert_eq!(client_settings(&c), pairs(&[("bootstrap.servers", "localhost:9092")]));
}

#[test]
fn sasl_scram_over_tls() {
    let c = KafkaClusterConfig {
        bootstrap_servers: "b:9093".to_string(),
        auth: KafkaAuth::SaslScramSha512 { username: "u".to_string(), password: "p".to_string() },
        tls: Some(KafkaTlsConfig {
            ca_cert_path: Some("/ca.pem".to_string()),
            client_cert_path: None,
            client_key_path: None,
            verify_certificate: false,
        }),
        additional_config: pairs(&[("client.id", "me")]),
    };
    assert_eq!(
        client_settings(&c),
        pairs(&[
            ("bootstrap.servers", "b:9093"),
            ("security.protocol", "SASL_PLAINTEXT"),
            ("sasl.mechanism", "SCRAM-SHA-512"),
            ("sasl.username", "u"),
            ("sasl.password", "p"),
            ("security.protocol", "SASL_SSL"),
            ("ssl.ca.location", "/ca.pem"),
            ("enable.ssl.certificate.verification", "false"),
            ("client.id", "me"),
        ])
    );
    let config = admin_client_config(&c);
    assert_eq!(config.get("security.protocol"), Some("SASL_SSL"));
    assert_eq!(config.get("client.id"), Some("me"));
    assert_eq!(config.get("sasl.mechanism"), Some("SCRAM-SHA-512"));
}

#[test]
fn tls_without_sasl_and_kerberos() {
    let c = KafkaClusterConfig {
        bootstrap_servers: "b".to_string(),
        auth: KafkaAuth::NoAuth,
        tls: Some(KafkaTlsConfig::default()),
        additional_config: vec![],
    };
    assert_eq!(admin_client_config(&c).get("security.protocol"), Some("SSL"));
    let c = KafkaClusterConfig {
        bootstrap_servers: "b".to_string(),
        auth: KafkaAuth::SaslGssapi { principal: "kafka/host".to_string(), keytab_path: Some("/k".to_string()) },
        tls: None,
        additional_config: pairs(&[("sasl.mechanism", "OTHER")]),
    };
    let config = admin_client_config(&c);
    assert_eq!(config.get("sasl.kerberos.keytab"), Some("/k"));
    assert_eq!(config.get("security.protocol"), Some("SASL_PLAINTEXT"));
    assert_eq!(config.get("sasl.mechanism"), Some("OTHER"));
}
