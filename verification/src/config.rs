//! Process-wide configuration shared across the console's components.

use vstd::prelude::*;

use crate::registry::RegistryConfig;

verus! {

/// Core configuration: ports, the runtime-control endpoint, transport
/// toggles, and the registries to register at startup.
#[derive(Debug, Clone, PartialEq)]
pub struct GhostPanelConfig {
    pub web_port: u16,
    pub agent_port: u16,
    pub cli_port: u16,
    pub bolt_api_url: String,
    pub enable_quic: bool,
    pub enable_http3: bool,
    pub tls_cert_path: Option<String>,
    pub tls_key_path: Option<String>,
    pub registries: Vec<RegistryConfig>,
}

impl Default for GhostPanelConfig {
    /// The default configuration: a local insecure registry and the public
    /// Docker Hub, both without credentials.
    fn default() -> (r: Self)
        ensures
            r.web_port == 9443,
            r.agent_port == 8000,
            r.cli_port == 9000,
            r.bolt_api_url@ == "bolt://localhost:8080"@,
            r.enable_quic,
            r.enable_http3,
            r.tls_cert_path is None,
            r.tls_key_path is None,
            r.registries@.len() == 2,
            r.registries@[0].name@ == "local-drift"@,
            r.registries@[0].url@ == "http://localhost:5000"@,
            r.registries@[0].username is None,
            r.registries@[0].password is None,
            r.registries@[0].insecure,
            r.registries@[1].name@ == "docker-hub"@,
            r.registries@[1].url@ == "https://registry-1.docker.io"@,
            r.registries@[1].username is None,
            r.registries@[1].password is None,
            !r.registries@[1].insecure,
    {
        GhostPanelConfig {
            web_port: 9443,
            agent_port: 8000,
            cli_port: 9000,
            bolt_api_url: "bolt://localhost:8080".to_owned(),
            enable_quic: true,
            enable_http3: true,
            tls_cert_path: None,
            tls_key_path: None,
            registries: vec![
                RegistryConfig {
                    name: "local-drift".to_owned(),
                    url: "http://localhost:5000".to_owned(),
                    username: None,
                    password: None,
                    insecure: true,
                },
                RegistryConfig {
                    name: "docker-hub".to_owned(),
                    url: "https://registry-1.docker.io".to_owned(),
                    username: None,
                    password: None,
                    insecure: false,
                },
            ],
        }
    }
}

} // verus!
