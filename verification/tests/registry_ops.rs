use gpanel_core::http::HttpMethod;
use gpanel_core::registry::{
    Descriptor, ImageManifest, RegistryClient, RegistryConfig, RepositoryList, TagList,
};
use gpanel_core::Error;

fn client() -> RegistryClient {
    RegistryClient::new(RegistryConfig {
        name: "reg".to_string(),
        url: "http://localhost:5000".to_string(),
        username: None,
        password: None,
        insecure: true,
    })
}

fn descriptor(digest: &str, size: u64) -> Descriptor {
    Descriptor {
        media_type: "application/vnd.docker.image.rootfs.diff.tar.gzip".to_string(),
        size,
        digest: digest.to_string(),
        urls: None,
    }
}

fn manifest(sizes: &[u64]) -> ImageManifest {
    ImageManifest {
        schema_version: 2,
        media_type: "application/vnd.docker.distribution.manifest.v2+json".to_string(),
        config: Descriptor {
            media_type: "application/vnd.docker.container.image.v1+json".to_string(),
            size: 9999,
            digest: "sha256:cfgdigest".to_string(),
            urls: None,
        },
        layers: sizes
            .iter()
            .enumerate()
            .map(|(i, s)| descriptor(&format!("sha256:layer{}", i), *s))
            .collect(),
    }
}

#[test]
fn catalog_request_carries_token() {
    let mut c = client();
    c.auth_token = Some("tok".to_string());
    let req = c.list_repositories_request();
    assert_eq!(req.method, HttpMethod::Get);
    assert_eq!(req.url, "http://localhost:5000/v2/_catalog");
    assert_eq!(req.bearer_token, Some("tok".to_string()));
    assert!(req.basic_auth.is_none());
}

#[test]
fn catalog_interpretation() {
    let c = client();
    let ok = c.interpret_repositories(
        200,
        Some(RepositoryList { repositories: vec!["nginx".to_string(), "redis".to_string()] }),
    );
    assert_eq!(ok.unwrap(), vec!["nginx".to_string(), "redis".to_string()]);
    match c.interpret_repositories(404, None) {
        Err(Error::Network(m)) => assert_eq!(m, "Failed to list repositories: 404"),
        other => panic!("expected a Network error, got {:?}", other),
    }
    assert!(matches!(c.interpret_repositories(200, None), Err(Error::Serialization(_))));
}

#[test]
fn tags_request_and_interpretation() {
    let c = client();
    let req = c.list_tags_request("library/nginx");
    assert_eq!(req.url, "http://localhost:5000/v2/library/nginx/tags/list");
    let ok = c.interpret_tags(
        "library/nginx",
        200,
        Some(TagList { name: "library/nginx".to_string(), tags: vec!["v1".to_string()] }),
    );
    assert_eq!(ok.unwrap(), vec!["v1".to_string()]);
    match c.interpret_tags("library/nginx", 500, None) {
        Err(Error::Network(m)) => assert_eq!(m, "Failed to list tags for library/nginx: 500"),
        other => panic!("expected a Network error, got {:?}", other),
    }
}

#[test]
fn manifest_request_negotiates_media_type() {
    let c = client();
    let req = c.get_manifest_request("myrepo", "v1");
    assert_eq!(req.url, "http://localhost:5000/v2/myrepo/manifests/v1");
    assert_eq!(
        req.accept,
        Some("application/vnd.docker.distribution.manifest.v2+json".to_string())
    );
}

#[test]
fn manifest_failure_names_repo_and_tag() {
    let c = client();
    match c.interpret_manifest("myrepo", "v1", 404, None) {
        Err(Error::Network(m)) => assert_eq!(m, "Failed to get manifest for myrepo:v1: 404"),
        other => panic!("expected a Network error, got {:?}", other),
    }
}

#[test]
fn image_info_sums_layer_sizes() {
    let c = client();
    let m = manifest(&[100, 250]);
    let info = c.image_info_at("myrepo", "v1", &m, None, None, 42);
    assert_eq!(info.size, 350);
    assert_eq!(info.repository, "myrepo");
    assert_eq!(info.tag, "v1");
    assert_eq!(info.digest, "sha256:cfgdigest");
    assert_eq!(info.layers.len(), 2);
    assert_eq!(info.layers[0].size, 100);
    assert_eq!(info.layers[0].digest, "sha256:layer0");
    assert!(info.layers.iter().all(|l| l.created_by.is_none()));
}

#[test]
fn image_info_created_falls_back_when_missing_or_malformed() {
    let c = client();
    let m = manifest(&[1]);
    let absent = c.image_info_at("r", "t", &m, None, None, 42);
    assert_eq!(absent.created, 42);
    let malformed = c.image_info_at("r", "t", &m, Some("not-a-date".to_string()), None, 42);
    assert_eq!(malformed.created, 42);
}

#[test]
fn image_info_parses_valid_created() {
    let c = client();
    let m = manifest(&[1]);
    let info = c.image_info_at(
        "r",
        "t",
        &m,
        Some("2023-01-01T00:00:00Z".to_string()),
        Some("author".to_string()),
        42,
    );
    assert_eq!(info.created, 1672531200);
    assert_eq!(info.author, Some("author".to_string()));
}

#[test]
fn image_info_from_succeeds_on_malformed_created() {
    let c = client();
    let m = manifest(&[5, 7]);
    let info = c.image_info_from("r", "t", &m, Some("garbage".to_string()), None);
    assert_eq!(info.size, 12);
}

#[test]
fn pull_verifies_every_layer() {
    let c = client();
    let m = manifest(&[100, 250]);
    let reqs = c.pull_layer_requests("myrepo", &m);
    assert_eq!(reqs.len(), 2);
    assert_eq!(reqs[0].method, HttpMethod::Head);
    assert_eq!(reqs[0].url, "http://localhost:5000/v2/myrepo/blobs/sha256:layer0");
    assert_eq!(reqs[1].url, "http://localhost:5000/v2/myrepo/blobs/sha256:layer1");
    assert!(c.check_layer(&m.layers[0], 200).is_ok());
    match c.check_layer(&m.layers[1], 404) {
        Err(Error::Network(msg)) => assert_eq!(msg, "Layer sha256:layer1 not found"),
        other => panic!("expected a Network error, got {:?}", other),
    }
}

#[test]
fn push_is_unimplemented() {
    match client().push_image("myrepo", "v1") {
        Err(Error::Config(m)) => assert_eq!(m, "Push functionality not yet implemented"),
        other => panic!("expected a Config error, got {:?}", other),
    }
}

#[test]
fn delete_without_digest_header_fails_without_a_request() {
    let c = client();
    match c.delete_image_request("myrepo", None) {
        Err(Error::Network(m)) => assert_eq!(m, "Could not get digest for image deletion"),
        other => panic!("expected a Network error, got {:?}", other),
    }
}

#[test]
fn delete_by_digest() {
    let c = client();
    let req = c.delete_image_request("myrepo", Some("sha256:abc")).unwrap();
    assert_eq!(req.method, HttpMethod::Delete);
    assert_eq!(req.url, "http://localhost:5000/v2/myrepo/manifests/sha256:abc");
    assert!(c.interpret_delete(202).is_ok());
    match c.interpret_delete(405) {
        Err(Error::Network(m)) => assert_eq!(m, "Failed to delete image: 405"),
        other => panic!("expected a Network error, got {:?}", other),
    }
}

#[test]
fn blob_request_addresses_digest() {
    let c = client();
    let req = c.blob_request("myrepo", "sha256:cfgdigest");
    assert_eq!(req.url, "http://localhost:5000/v2/myrepo/blobs/sha256:cfgdigest");
}
