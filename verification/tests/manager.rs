use gpanel_core::manager::{
    merge_search_results, matching_repositories, RegistryManager, RegistrySearchOutcome,
};
use gpanel_core::registry::{ImageInfo, RegistryClient, RegistryConfig};

fn client(name: &str, url: &str) -> RegistryClient {
    RegistryClient::new(RegistryConfig {
        name: name.to_string(),
        url: url.to_string(),
        username: None,
        password: None,
        insecure: false,
    })
}

fn info(repository: &str, tag: &str) -> ImageInfo {
    ImageInfo {
        repository: repository.to_string(),
        tag: tag.to_string(),
        digest: format!("sha256:{}", tag),
        size: 350,
        created: 0,
        author: None,
        layers: Vec::new(),
    }
}

#[test]
fn add_get_remove_roundtrip() {
    let mut m = RegistryManager::new();
    m.add_registry(client("a", "http://a.example"));
    m.add_registry(client("b", "http://b.example"));
    assert!(m.get_registry("a").is_some());
    assert_eq!(m.get_registry("b").unwrap().config.url, "http://b.example");
    assert!(m.get_registry("c").is_none());
    assert!(m.remove_registry("a"));
    assert!(m.get_registry("a").is_none());
    assert!(m.get_registry("b").is_some());
}

#[test]
fn remove_absent_is_not_found_and_idempotent() {
    let mut m = RegistryManager::new();
    assert!(!m.remove_registry("x"));
    m.add_registry(client("x", "http://x.example"));
    assert!(m.remove_registry("x"));
    assert!(!m.remove_registry("x"));
    assert!(!m.remove_registry("x"));
}

#[test]
fn add_with_colliding_name_replaces() {
    let mut m = RegistryManager::new();
    m.add_registry(client("a", "http://first.example"));
    m.add_registry(client("a", "http://second.example"));
    assert_eq!(m.list_registries().len(), 1);
    assert_eq!(m.get_registry("a").unwrap().config.url, "http://second.example");
}

#[test]
fn list_registries_names() {
    let mut m = RegistryManager::new();
    assert!(m.list_registries().is_empty());
    m.add_registry(client("a", "http://a.example"));
    m.add_registry(client("b", "http://b.example"));
    assert_eq!(m.list_registries(), vec!["a", "b"]);
}

#[test]
fn repositories_filter_by_substring() {
    let repos = vec![
        "nginx".to_string(),
        "redis".to_string(),
        "my-nginx-fork".to_string(),
        "postgres".to_string(),
    ];
    assert_eq!(
        matching_repositories(&repos, "ngin"),
        vec!["nginx".to_string(), "my-nginx-fork".to_string()]
    );
    assert_eq!(matching_repositories(&repos, "nothere"), Vec::<String>::new());
    assert_eq!(matching_repositories(&repos, "").len(), 4);
}

#[test]
fn failed_registry_contributes_nothing() {
    let outcomes = vec![
        RegistrySearchOutcome { registry: "a".to_string(), images: None },
        RegistrySearchOutcome {
            registry: "b".to_string(),
            images: Some(vec![info("nginx", "v1"), info("nginx", "v2")]),
        },
    ];
    let merged = merge_search_results(outcomes);
    assert_eq!(merged.len(), 2);
    assert_eq!(merged[0].0, "b");
    assert_eq!(merged[0].1.repository, "nginx");
    assert_eq!(merged[0].1.tag, "v1");
    assert_eq!(merged[1].1.tag, "v2");
}

#[test]
fn merge_keeps_registry_order() {
    let outcomes = vec![
        RegistrySearchOutcome { registry: "a".to_string(), images: Some(vec![info("r", "1")]) },
        RegistrySearchOutcome { registry: "b".to_string(), images: None },
        RegistrySearchOutcome { registry: "c".to_string(), images: Some(vec![info("r", "2")]) },
    ];
    let merged = merge_search_results(outcomes);
    assert_eq!(merged.len(), 2);
    assert_eq!(merged[0].0, "a");
    assert_eq!(merged[1].0, "c");
}

#[test]
fn merge_of_all_failures_is_empty() {
    let outcomes = vec![
        RegistrySearchOutcome { registry: "a".to_string(), images: None },
        RegistrySearchOutcome { registry: "b".to_string(), images: None },
    ];
    assert!(merge_search_results(outcomes).is_empty());
}
