use gpanel_core::http::HttpMethod;
use gpanel_core::registry::{AuthAction, AuthProgress, RegistryClient, RegistryConfig};
use gpanel_core::Error;

fn config(username: Option<&str>, password: Option<&str>) -> RegistryConfig {
    RegistryConfig {
        name: "reg".to_string(),
        url: "https://registry.example".to_string(),
        username: username.map(|s| s.to_string()),
        password: password.map(|s| s.to_string()),
        insecure: false,
    }
}

#[test]
fn no_credentials_auth_is_noop() {
    let client = RegistryClient::new(config(None, None));
    assert!(matches!(client.begin_authentication(), AuthAction::Done));
    let client = RegistryClient::new(config(Some("u"), None));
    assert!(matches!(client.begin_authentication(), AuthAction::Done));
    let client = RegistryClient::new(config(None, Some("p")));
    assert!(matches!(client.begin_authentication(), AuthAction::Done));
}

#[test]
fn credentials_trigger_probe() {
    let client = RegistryClient::new(config(Some("u"), Some("p")));
    match client.begin_authentication() {
        AuthAction::SendProbe(req) => {
            assert_eq!(req.method, HttpMethod::Get);
            assert_eq!(req.url, "https://registry.example/v2/");
            assert!(req.accept.is_none());
            assert!(req.bearer_token.is_none());
            assert!(req.basic_auth.is_none());
        },
        AuthAction::Done => panic!("expected a probe"),
    }
}

#[test]
fn wellformed_challenge_yields_token_request() {
    let client = RegistryClient::new(config(Some("alice"), Some("secret")));
    let header = "Bearer realm=\"https://auth.example/token\",service=\"registry.example\"";
    match client.on_probe_response(401, Some(header)) {
        Ok(AuthProgress::RequestToken(req)) => {
            assert_eq!(req.method, HttpMethod::Get);
            assert_eq!(
                req.url,
                "https://auth.example/token?service=registry.example&scope=registry:catalog:*"
            );
            let cred = req.basic_auth.expect("basic credentials");
            assert_eq!(cred.username, "alice");
            assert_eq!(cred.password, "secret");
            assert!(req.bearer_token.is_none());
        },
        other => panic!("expected a token request, got {:?}", other),
    }
}

#[test]
fn challenge_missing_service_is_auth_error() {
    let client = RegistryClient::new(config(Some("u"), Some("p")));
    let header = "Bearer realm=\"https://auth.example/token\"";
    match client.on_probe_response(401, Some(header)) {
        Err(Error::Auth(_)) => {},
        other => panic!("expected an Auth error, got {:?}", other),
    }
}

#[test]
fn challenge_missing_realm_is_auth_error() {
    let client = RegistryClient::new(config(Some("u"), Some("p")));
    let header = "Bearer service=\"registry.example\"";
    match client.on_probe_response(401, Some(header)) {
        Err(Error::Auth(_)) => {},
        other => panic!("expected an Auth error, got {:?}", other),
    }
}

#[test]
fn non_401_probe_needs_no_token() {
    let client = RegistryClient::new(config(Some("u"), Some("p")));
    assert!(matches!(
        client.on_probe_response(200, None),
        Ok(AuthProgress::NoTokenNeeded)
    ));
    assert!(matches!(
        client.on_probe_response(401, None),
        Ok(AuthProgress::NoTokenNeeded)
    ));
}

#[test]
fn challenge_extra_fields_are_tolerated() {
    let client = RegistryClient::new(config(Some("u"), Some("p")));
    let header =
        "Bearer realm=\"https://a.example/t\", service=\"svc\", scope=\"repository:library:pull\"";
    match client.on_probe_response(401, Some(header)) {
        Ok(AuthProgress::RequestToken(req)) => {
            assert_eq!(req.url, "https://a.example/t?service=svc&scope=registry:catalog:*");
        },
        other => panic!("expected a token request, got {:?}", other),
    }
}

#[test]
fn challenge_last_occurrence_wins() {
    let parsed = gpanel_core::challenge::parse_bearer_challenge(
        "Bearer realm=\"first\",realm=\"second\",service=\"svc\"",
    )
    .expect("parse");
    assert_eq!(parsed.realm, "second");
    assert_eq!(parsed.service, "svc");
}

#[test]
fn challenge_unquoted_values_parse() {
    let parsed =
        gpanel_core::challenge::parse_bearer_challenge("Bearer realm=https://a.example/t,service=svc")
            .expect("parse");
    assert_eq!(parsed.realm, "https://a.example/t");
    assert_eq!(parsed.service, "svc");
}

#[test]
fn token_response_is_stored() {
    let mut client = RegistryClient::new(config(Some("u"), Some("p")));
    assert!(client.on_token_response(200, Some("tok123".to_string())).is_ok());
    assert_eq!(client.auth_token, Some("tok123".to_string()));
}

#[test]
fn token_rejection_is_auth_error() {
    let mut client = RegistryClient::new(config(Some("u"), Some("p")));
    match client.on_token_response(401, None) {
        Err(Error::Auth(m)) => {
            assert_eq!(m, "Token endpoint rejected the credentials: 401");
        },
        other => panic!("expected an Auth error, got {:?}", other),
    }
    assert!(client.auth_token.is_none());
}

#[test]
fn token_body_mismatch_is_serialization_error() {
    let mut client = RegistryClient::new(config(Some("u"), Some("p")));
    assert!(matches!(
        client.on_token_response(200, None),
        Err(Error::Serialization(_))
    ));
}

#[test]
fn redacted_config_hides_credentials() {
    let with = config(Some("u"), Some("p")).redacted();
    assert!(with.has_auth);
    assert_eq!(with.name, "reg");
    assert_eq!(with.url, "https://registry.example");
    let without = config(None, None).redacted();
    assert!(!without.has_auth);
}
