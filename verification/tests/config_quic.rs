use gpanel_core::config::GhostPanelConfig;
use gpanel_core::quic::{Http3Client, Http3Server, QuicClient, QuicServer};
use gpanel_core::Error;

#[test]
fn default_config_registers_two_registries() {
    let c = GhostPanelConfig::default();
    assert_eq!(c.web_port, 9443);
    assert_eq!(c.agent_port, 8000);
    assert_eq!(c.cli_port, 9000);
    assert_eq!(c.bolt_api_url, "bolt://localhost:8080");
    assert!(c.enable_quic && c.enable_http3);
    assert_eq!(c.registries.len(), 2);
    assert_eq!(c.registries[0].name, "local-drift");
    assert!(c.registries[0].insecure);
    assert_eq!(c.registries[1].name, "docker-hub");
    assert_eq!(c.registries[1].url, "https://registry-1.docker.io");
    assert!(!c.registries[1].insecure);
    assert!(c.registries.iter().all(|r| r.username.is_none() && r.password.is_none()));
}

#[test]
fn quic_transport_is_stubbed_to_fail() {
    let client = QuicClient::new("example.com".to_string()).unwrap();
    assert!(matches!(client.connect("127.0.0.1:4433"), Err(Error::Config(_))));

    let server = QuicServer::new("0.0.0.0:4433".to_string(), None, None).unwrap();
    assert!(matches!(server.accept(), Err(Error::Config(_))));
}

#[test]
fn http3_transport_is_stubbed_to_fail() {
    let client = Http3Client::new("example.com".to_string()).unwrap();
    assert!(matches!(client.get("127.0.0.1:4433", "/index"), Err(Error::Config(_))));
    assert!(matches!(
        client.post("127.0.0.1:4433", "/index", vec![1, 2, 3]),
        Err(Error::Config(_))
    ));

    let server = Http3Server::new("0.0.0.0:4433".to_string(), None, None).unwrap();
    assert!(matches!(server.serve(), Err(Error::Config(_))));
}

#[test]
fn error_messages_name_the_kind() {
    assert_eq!(
        Error::Network("boom".to_string()).message(),
        "Network error: boom"
    );
    assert_eq!(
        Error::Auth("denied".to_string()).message(),
        "Authentication error: denied"
    );
    assert_eq!(
        Error::Config("missing".to_string()).message(),
        "Configuration error: missing"
    );
    assert_eq!(
        Error::Serialization("bad json".to_string()).message(),
        "Serialization error: bad json"
    );
    assert_eq!(
        Error::Container("gone".to_string()).message(),
        "Container error: gone"
    );
}
