//! One registry's client: its configuration, its cached bearer token, and
//! the Docker Registry HTTP API v2 operations.
//!
//! Network traffic is not performed here. Every operation is split into a
//! verified request builder, which says exactly which request to put on the
//! wire, and a verified response interpreter, which says exactly what each
//! response means. The surrounding process carries requests to the wire and
//! hands the plain response data back.

use vstd::prelude::*;
use vstd::string::StringExecFns;

use crate::challenge::{parse_bearer_challenge, spec_parse_challenge};
use crate::clock::{now_epoch, parse_rfc3339_epoch, rfc3339_epoch};
use crate::error::Error;
use crate::strnum::{dec_rep, u64_to_string};

verus! {

/// Configuration of one registry: a unique name, a base URL and optional
/// credentials.
#[derive(Debug, Clone, PartialEq)]
pub struct RegistryConfig {
    pub name: String,
    pub url: String,
    pub username: Option<String>,
    pub password: Option<String>,
    pub insecure: bool,
}

/// The redacted projection of a configuration handed to external callers:
/// the secret is replaced by a `has_auth` flag.
#[derive(Debug, Clone, PartialEq)]
pub struct RegistryConfigResponse {
    pub name: String,
    pub url: String,
    pub has_auth: bool,
    pub insecure: bool,
}

/// An image manifest as the registry returns it.
#[derive(Debug, Clone, PartialEq)]
pub struct ImageManifest {
    pub schema_version: i32,
    pub media_type: String,
    pub config: Descriptor,
    pub layers: Vec<Descriptor>,
}

/// A content descriptor: media type, declared size and content address.
#[derive(Debug, Clone, PartialEq)]
pub struct Descriptor {
    pub media_type: String,
    pub size: u64,
    pub digest: String,
    pub urls: Option<Vec<String>>,
}

/// The catalog response.
#[derive(Debug, Clone, PartialEq)]
pub struct RepositoryList {
    pub repositories: Vec<String>,
}

/// The tag list response for one repository.
#[derive(Debug, Clone, PartialEq)]
pub struct TagList {
    pub name: String,
    pub tags: Vec<String>,
}

/// Derived image information: a read model combining a manifest with the
/// config blob's metadata. Timestamps are Unix epoch seconds.
#[derive(Debug, Clone, PartialEq)]
pub struct ImageInfo {
    pub repository: String,
    pub tag: String,
    pub digest: String,
    pub size: u64,
    pub created: i64,
    pub author: Option<String>,
    pub layers: Vec<LayerInfo>,
}

/// One layer of a derived image view.
#[derive(Debug, Clone, PartialEq)]
pub struct LayerInfo {
    pub digest: String,
    pub size: u64,
    pub media_type: String,
    pub created_by: Option<String>,
}

/// A client for one registry: its configuration and, after a successful
/// authentication, a cached bearer token. The token is never refreshed; a
/// later 401 surfaces as an error.
#[derive(Debug, Clone, PartialEq)]
pub struct RegistryClient {
    pub config: RegistryConfig,
    pub auth_token: Option<String>,
}

/// The first step of authentication: nothing to do, or a probe to send.
#[derive(Debug, Clone, PartialEq)]
pub enum AuthAction {
    /// No credentials are configured: authentication is a no-op and no
    /// request goes on the wire.
    Done,
    /// Send this unauthenticated probe to the registry root.
    SendProbe(crate::http::HttpRequest),
}

/// What a probe response asks for next.
#[derive(Debug, Clone, PartialEq)]
pub enum AuthProgress {
    /// The registry did not demand a bearer token.
    NoTokenNeeded,
    /// Ask the token endpoint, with Basic credentials, via this request.
    RequestToken(crate::http::HttpRequest),
}

/// A status in the 2xx range.
pub open spec fn is_success_status(status: u16) -> bool {
    200 <= status < 300
}

/// Decides whether a status is in the 2xx range.
pub fn status_is_success(status: u16) -> (b: bool)
    ensures
        b == is_success_status(status),
{
    200 <= status && status < 300
}

pub(crate) fn clone_opt_string(o: &Option<String>) -> (r: Option<String>)
    ensures
        r == *o,
{
    match o {
        Some(s) => Some(s.clone()),
        None => None,
    }
}

pub open spec fn challenge_parse_error_msg() -> Seq<char> {
    "Could not parse WWW-Authenticate challenge"@
}

pub open spec fn token_rejected_msg(status: u16) -> Seq<char> {
    "Token endpoint rejected the credentials: "@ + dec_rep(status as int)
}

pub open spec fn token_schema_msg() -> Seq<char> {
    "Token response did not match the expected schema"@
}

pub open spec fn catalog_failed_msg(status: u16) -> Seq<char> {
    "Failed to list repositories: "@ + dec_rep(status as int)
}

pub open spec fn catalog_schema_msg() -> Seq<char> {
    "Repository list did not match the expected schema"@
}

pub open spec fn tags_failed_msg(repository: Seq<char>, status: u16) -> Seq<char> {
    "Failed to list tags for "@ + repository + ": "@ + dec_rep(status as int)
}

pub open spec fn tags_schema_msg() -> Seq<char> {
    "Tag list did not match the expected schema"@
}

pub open spec fn manifest_failed_msg(repository: Seq<char>, tag: Seq<char>, status: u16) -> Seq<
    char,
> {
    "Failed to get manifest for "@ + repository + ":"@ + tag + ": "@ + dec_rep(status as int)
}

pub open spec fn manifest_schema_msg() -> Seq<char> {
    "Manifest did not match the expected schema"@
}

pub open spec fn layer_missing_msg(digest: Seq<char>) -> Seq<char> {
    "Layer "@ + digest + " not found"@
}

pub open spec fn push_unimplemented_msg() -> Seq<char> {
    "Push functionality not yet implemented"@
}

pub open spec fn delete_no_digest_msg() -> Seq<char> {
    "Could not get digest for image deletion"@
}

pub open spec fn delete_failed_msg(status: u16) -> Seq<char> {
    "Failed to delete image: "@ + dec_rep(status as int)
}

/// The sum of the declared layer sizes.
pub open spec fn sum_layer_sizes(layers: Seq<Descriptor>) -> int
    decreases layers.len(),
{
    if layers.len() == 0 {
        0
    } else {
        sum_layer_sizes(layers.drop_last()) + layers.last().size
    }
}

proof fn lemma_sum_take_step(layers: Seq<Descriptor>, i: int)
    requires
        0 <= i < layers.len(),
    ensures
        sum_layer_sizes(layers.take(i + 1)) == sum_layer_sizes(layers.take(i)) + layers[i].size,
{
    let t = layers.take(i + 1);
    assert(t.drop_last() =~= layers.take(i));
    assert(t.last() == layers[i]);
}

proof fn lemma_sum_take_le(layers: Seq<Descriptor>, i: int)
    requires
        0 <= i <= layers.len(),
    ensures
        sum_layer_sizes(layers.take(i)) <= sum_layer_sizes(layers),
    decreases layers.len() - i,
{
    if i == layers.len() {
        assert(layers.take(i) =~= layers);
    } else {
        lemma_sum_take_step(layers, i);
        lemma_sum_take_le(layers, i + 1);
    }
}

impl RegistryConfig {
    /// Both a username and a password are configured.
    pub open spec fn spec_has_credentials(self) -> bool {
        self.username is Some && self.password is Some
    }

    /// The projection shown to external callers: the credentials are never
    /// echoed back, only whether they exist.
    pub fn redacted(&self) -> (r: RegistryConfigResponse)
        ensures
            r.name == self.name,
            r.url == self.url,
            r.insecure == self.insecure,
            r.has_auth == self.spec_has_credentials(),
    {
        RegistryConfigResponse {
            name: self.name.clone(),
            url: self.url.clone(),
            has_auth: self.username.is_some() && self.password.is_some(),
            insecure: self.insecure,
        }
    }
}

impl RegistryClient {
    /// A fresh client: no token is cached until authentication stores one.
    pub fn new(config: RegistryConfig) -> (r: Self)
        ensures
            r.config == config,
            r.auth_token is None,
    {
        RegistryClient { config, auth_token: None }
    }

    pub open spec fn has_credentials(self) -> bool {
        self.config.spec_has_credentials()
    }

    /// Begins authentication. With no credentials configured this is a
    /// no-op and no request is produced; otherwise the caller must send the
    /// returned unauthenticated probe to the registry root.
    pub fn begin_authentication(&self) -> (r: AuthAction)
        ensures
            match r {
                AuthAction::Done => !self.has_credentials(),
                AuthAction::SendProbe(req) => {
                    &&& self.has_credentials()
                    &&& req.method == crate::http::HttpMethod::Get
                    &&& req.url@ == self.config.url@ + "/v2/"@
                    &&& req.accept is None
                    &&& req.bearer_token is None
                    &&& req.basic_auth is None
                },
            },
    {
        if self.config.username.is_some() && self.config.password.is_some() {
            AuthAction::SendProbe(
                crate::http::HttpRequest {
                    method: crate::http::HttpMethod::Get,
                    url: self.config.url.clone().concat("/v2/"),
                    accept: None,
                    bearer_token: None,
                    basic_auth: None,
                },
            )
        } else {
            AuthAction::Done
        }
    }

    /// Interprets the probe response. Only a 401 carrying a parseable
    /// bearer challenge leads to a token request; a challenge whose realm
    /// or service is missing is an authentication failure.
    pub fn on_probe_response(&self, status: u16, www_authenticate: Option<&str>) -> (r: Result<
        AuthProgress,
        Error,
    >)
        ensures
            status != 401 ==> r == Ok::<AuthProgress, Error>(AuthProgress::NoTokenNeeded),
            status == 401 && www_authenticate is None ==> r == Ok::<AuthProgress, Error>(
                AuthProgress::NoTokenNeeded,
            ),
            status == 401 ==> (www_authenticate matches Some(h) ==> (spec_parse_challenge(h@)
                is None ==> (r matches Err(e) && e matches Error::Auth(m) && m@
                == challenge_parse_error_msg()))),
            status == 401 ==> (www_authenticate matches Some(h) ==> (spec_parse_challenge(h@)
                matches Some(rs) ==> (!self.has_credentials() ==> r == Ok::<AuthProgress, Error>(
                AuthProgress::NoTokenNeeded,
            )))),
            status == 401 ==> (www_authenticate matches Some(h) ==> (spec_parse_challenge(h@)
                matches Some(rs) ==> (self.has_credentials() ==> (r matches Ok(
                AuthProgress::RequestToken(req),
            ) && {
                &&& req.method == crate::http::HttpMethod::Get
                &&& req.url@ == rs.0 + "?service="@ + rs.1 + "&scope=registry:catalog:*"@
                &&& req.accept is None
                &&& req.bearer_token is None
                &&& req.basic_auth matches Some(cred) && Some(cred.username) == self.config.username
                    && Some(cred.password) == self.config.password
            })))),
    {
        if status != 401 {
            return Ok(AuthProgress::NoTokenNeeded);
        }
        match www_authenticate {
            None => Ok(AuthProgress::NoTokenNeeded),
            Some(header) => {
                match parse_bearer_challenge(header) {
                    None => Err(
                        Error::Auth("Could not parse WWW-Authenticate challenge".to_owned()),
                    ),
                    Some(challenge) => {
                        match (&self.config.username, &self.config.password) {
                            (Some(u), Some(p)) => {
                                let url = challenge.realm.concat("?service=").concat(
                                    challenge.service.as_str(),
                                ).concat("&scope=registry:catalog:*");
                                Ok(
                                    AuthProgress::RequestToken(
                                        crate::http::HttpRequest {
                                            method: crate::http::HttpMethod::Get,
                                            url,
                                            accept: None,
                                            bearer_token: None,
                                            basic_auth: Some(
                                                crate::http::BasicCredentials {
                                                    username: u.clone(),
                                                    password: p.clone(),
                                                },
                                            ),
                                        },
                                    ),
                                )
                            },
                            _ => Ok(AuthProgress::NoTokenNeeded),
                        }
                    },
                }
            },
        }
    }

    /// Stores the token from the token endpoint's response, or reports why
    /// none was obtained. The configuration never changes.
    pub fn on_token_response(&mut self, status: u16, token: Option<String>) -> (r: Result<
        (),
        Error,
    >)
        ensures
            final(self).config == old(self).config,
            is_success_status(status) ==> (token matches Some(t) ==> (r is Ok
                && final(self).auth_token == Some(t))),
            is_success_status(status) && token is None ==> (r matches Err(e) && e matches
                Error::Serialization(m) && m@ == token_schema_msg() && final(self).auth_token
                == old(self).auth_token),
            !is_success_status(status) ==> (r matches Err(e) && e matches Error::Auth(m) && m@
                == token_rejected_msg(status) && final(self).auth_token == old(self).auth_token),
    {
        if !status_is_success(status) {
            let msg = "Token endpoint rejected the credentials: ".to_owned().concat(
                u64_to_string(status as u64).as_str(),
            );
            return Err(Error::Auth(msg));
        }
        match token {
            Some(t) => {
                self.auth_token = Some(t);
                Ok(())
            },
            None => Err(
                Error::Serialization("Token response did not match the expected schema".to_owned()),
            ),
        }
    }

    /// The catalog request: `GET {url}/v2/_catalog`, with the cached bearer
    /// token when one is held.
    pub fn list_repositories_request(&self) -> (r: crate::http::HttpRequest)
        ensures
            r.method == crate::http::HttpMethod::Get,
            r.url@ == self.config.url@ + "/v2/_catalog"@,
            r.accept is None,
            r.bearer_token == self.auth_token,
            r.basic_auth is None,
    {
        crate::http::HttpRequest {
            method: crate::http::HttpMethod::Get,
            url: self.config.url.clone().concat("/v2/_catalog"),
            accept: None,
            bearer_token: clone_opt_string(&self.auth_token),
            basic_auth: None,
        }
    }

    /// What a catalog response means: the repository names on success, a
    /// `Network` error for a non-2xx status, a `Serialization` error for a
    /// body that did not parse.
    pub fn interpret_repositories(&self, status: u16, body: Option<RepositoryList>) -> (r: Result<
        Vec<String>,
        Error,
    >)
        ensures
            !is_success_status(status) ==> (r matches Err(e) && e matches Error::Network(m) && m@
                == catalog_failed_msg(status)),
            is_success_status(status) ==> (body matches Some(list) ==> r == Ok::<
                Vec<String>,
                Error,
            >(list.repositories)),
            is_success_status(status) && body is None ==> (r matches Err(e) && e matches
                Error::Serialization(m) && m@ == catalog_schema_msg()),
    {
        if !status_is_success(status) {
            let msg = "Failed to list repositories: ".to_owned().concat(
                u64_to_string(status as u64).as_str(),
            );
            return Err(Error::Network(msg));
        }
        match body {
            Some(list) => Ok(list.repositories),
            None => Err(
                Error::Serialization("Repository list did not match the expected schema".to_owned()),
            ),
        }
    }

    /// The tag list request: `GET {url}/v2/{repository}/tags/list`.
    pub fn list_tags_request(&self, repository: &str) -> (r: crate::http::HttpRequest)
        ensures
            r.method == crate::http::HttpMethod::Get,
            r.url@ == self.config.url@ + "/v2/"@ + repository@ + "/tags/list"@,
            r.accept is None,
            r.bearer_token == self.auth_token,
            r.basic_auth is None,
    {
        crate::http::HttpRequest {
            method: crate::http::HttpMethod::Get,
            url: self.config.url.clone().concat("/v2/").concat(repository).concat("/tags/list"),
            accept: None,
            bearer_token: clone_opt_string(&self.auth_token),
            basic_auth: None,
        }
    }

    /// What a tag list response means.
    pub fn interpret_tags(&self, repository: &str, status: u16, body: Option<TagList>) -> (r:
        Result<Vec<String>, Error>)
        ensures
            !is_success_status(status) ==> (r matches Err(e) && e matches Error::Network(m) && m@
                == tags_failed_msg(repository@, status)),
            is_success_status(status) ==> (body matches Some(list) ==> r == Ok::<
                Vec<String>,
                Error,
            >(list.tags)),
            is_success_status(status) && body is None ==> (r matches Err(e) && e matches
                Error::Serialization(m) && m@ == tags_schema_msg()),
    {
        if !status_is_success(status) {
            let msg = "Failed to list tags for ".to_owned().concat(repository).concat(": ").concat(
                u64_to_string(status as u64).as_str(),
            );
            return Err(Error::Network(msg));
        }
        match body {
            Some(list) => Ok(list.tags),
            None => Err(
                Error::Serialization("Tag list did not match the expected schema".to_owned()),
            ),
        }
    }

    /// The manifest request: `GET {url}/v2/{repository}/manifests/{reference}`
    /// asking explicitly for the v2 manifest media type.
    pub fn get_manifest_request(&self, repository: &str, reference: &str) -> (r:
        crate::http::HttpRequest)
        ensures
            r.method == crate::http::HttpMethod::Get,
            r.url@ == self.config.url@ + "/v2/"@ + repository@ + "/manifests/"@ + reference@,
            r.accept matches Some(a) && a@
                == "application/vnd.docker.distribution.manifest.v2+json"@,
            r.bearer_token == self.auth_token,
            r.basic_auth is None,
    {
        crate::http::HttpRequest {
            method: crate::http::HttpMethod::Get,
            url: self.config.url.clone().concat("/v2/").concat(repository).concat(
                "/manifests/",
            ).concat(reference),
            accept: Some("application/vnd.docker.distribution.manifest.v2+json".to_owned()),
            bearer_token: clone_opt_string(&self.auth_token),
            basic_auth: None,
        }
    }

    /// What a manifest response means.
    pub fn interpret_manifest(
        &self,
        repository: &str,
        tag: &str,
        status: u16,
        body: Option<ImageManifest>,
    ) -> (r: Result<ImageManifest, Error>)
        ensures
            !is_success_status(status) ==> (r matches Err(e) && e matches Error::Network(m) && m@
                == manifest_failed_msg(repository@, tag@, status)),
            is_success_status(status) ==> (body matches Some(manifest) ==> r == Ok::<
                ImageManifest,
                Error,
            >(manifest)),
            is_success_status(status) && body is None ==> (r matches Err(e) && e matches
                Error::Serialization(m) && m@ == manifest_schema_msg()),
    {
        if !status_is_success(status) {
            let msg = "Failed to get manifest for ".to_owned().concat(repository).concat(
                ":",
            ).concat(tag).concat(": ").concat(u64_to_string(status as u64).as_str());
            return Err(Error::Network(msg));
        }
        match body {
            Some(manifest) => Ok(manifest),
            None => Err(
                Error::Serialization("Manifest did not match the expected schema".to_owned()),
            ),
        }
    }

    /// The blob request for a digest: `GET {url}/v2/{repository}/blobs/{digest}`.
    pub fn blob_request(&self, repository: &str, digest: &str) -> (r: crate::http::HttpRequest)
        ensures
            r.method == crate::http::HttpMethod::Get,
            r.url@ == self.config.url@ + "/v2/"@ + repository@ + "/blobs/"@ + digest@,
            r.accept is None,
            r.bearer_token == self.auth_token,
            r.basic_auth is None,
    {
        crate::http::HttpRequest {
            method: crate::http::HttpMethod::Get,
            url: self.config.url.clone().concat("/v2/").concat(repository).concat(
                "/blobs/",
            ).concat(digest),
            accept: None,
            bearer_token: clone_opt_string(&self.auth_token),
            basic_auth: None,
        }
    }

    /// The `HEAD` requests that verify a pull: one per layer, in order.
    pub fn pull_layer_requests(&self, repository: &str, manifest: &ImageManifest) -> (r: Vec<
        crate::http::HttpRequest,
    >)
        ensures
            r@.len() == manifest.layers@.len(),
            forall|i: int|
                0 <= i < r@.len() ==> {
                    &&& (#[trigger] r@[i]).method == crate::http::HttpMethod::Head
                    &&& r@[i].url@ == self.config.url@ + "/v2/"@ + repository@ + "/blobs/"@
                        + manifest.layers@[i].digest@
                    &&& r@[i].accept is None
                    &&& r@[i].bearer_token == self.auth_token
                    &&& r@[i].basic_auth is None
                },
    {
        let mut requests: Vec<crate::http::HttpRequest> = Vec::new();
        let mut i: usize = 0;
        while i < manifest.layers.len()
            invariant
                0 <= i <= manifest.layers@.len(),
                requests@.len() == i,
                forall|k: int|
                    0 <= k < i ==> {
                        &&& (#[trigger] requests@[k]).method == crate::http::HttpMethod::Head
                        &&& requests@[k].url@ == self.config.url@ + "/v2/"@ + repository@
                            + "/blobs/"@ + manifest.layers@[k].digest@
                        &&& requests@[k].accept is None
                        &&& requests@[k].bearer_token == self.auth_token
                        &&& requests@[k].basic_auth is None
                    },
            decreases manifest.layers@.len() - i,
        {
            let url = self.config.url.clone().concat("/v2/").concat(repository).concat(
                "/blobs/",
            ).concat(manifest.layers[i].digest.as_str());
            requests.push(
                crate::http::HttpRequest {
                    method: crate::http::HttpMethod::Head,
                    url,
                    accept: None,
                    bearer_token: clone_opt_string(&self.auth_token),
                    basic_auth: None,
                },
            );
            i = i + 1;
        }
        requests
    }

    /// What one layer's `HEAD` response means for a pull: any non-2xx
    /// status fails the pull, naming the missing digest.
    pub fn check_layer(&self, layer: &Descriptor, status: u16) -> (r: Result<(), Error>)
        ensures
            is_success_status(status) ==> r is Ok,
            !is_success_status(status) ==> (r matches Err(e) && e matches Error::Network(m) && m@
                == layer_missing_msg(layer.digest@)),
    {
        if status_is_success(status) {
            Ok(())
        } else {
            let msg = "Layer ".to_owned().concat(layer.digest.as_str()).concat(" not found");
            Err(Error::Network(msg))
        }
    }

    /// Pushing is not implemented: every call fails with a `Config` error.
    pub fn push_image(&self, _repository: &str, _tag: &str) -> (r: Result<(), Error>)
        ensures
            r matches Err(e) && e matches Error::Config(m) && m@ == push_unimplemented_msg(),
    {
        Err(Error::Config("Push functionality not yet implemented".to_owned()))
    }

    /// Decides the deletion request from the manifest response's
    /// `Docker-Content-Digest` header. Registries delete by digest, never by
    /// tag; without the header no `DELETE` request exists and the operation
    /// fails.
    pub fn delete_image_request(&self, repository: &str, digest_header: Option<&str>) -> (r: Result<
        crate::http::HttpRequest,
        Error,
    >)
        ensures
            digest_header is None ==> (r matches Err(e) && e matches Error::Network(m) && m@
                == delete_no_digest_msg()),
            digest_header matches Some(digest) ==> (r matches Ok(req) && {
                &&& req.method == crate::http::HttpMethod::Delete
                &&& req.url@ == self.config.url@ + "/v2/"@ + repository@ + "/manifests/"@ + digest@
                &&& req.accept is None
                &&& req.bearer_token == self.auth_token
                &&& req.basic_auth is None
            }),
    {
        match digest_header {
            None => Err(Error::Network("Could not get digest for image deletion".to_owned())),
            Some(digest) => Ok(
                crate::http::HttpRequest {
                    method: crate::http::HttpMethod::Delete,
                    url: self.config.url.clone().concat("/v2/").concat(repository).concat(
                        "/manifests/",
                    ).concat(digest),
                    accept: None,
                    bearer_token: clone_opt_string(&self.auth_token),
                    basic_auth: None,
                },
            ),
        }
    }

    /// What the `DELETE` response means.
    pub fn interpret_delete(&self, status: u16) -> (r: Result<(), Error>)
        ensures
            is_success_status(status) ==> r is Ok,
            !is_success_status(status) ==> (r matches Err(e) && e matches Error::Network(m) && m@
                == delete_failed_msg(status)),
    {
        if status_is_success(status) {
            Ok(())
        } else {
            let msg = "Failed to delete image: ".to_owned().concat(
                u64_to_string(status as u64).as_str(),
            );
            Err(Error::Network(msg))
        }
    }

    /// Builds the derived image view from a manifest and the config blob's
    /// metadata, at a given fallback instant.
    ///
    /// The size is the sum of the layer sizes alone; the config blob's own
    /// size never counts. A missing or malformed `created` field degrades
    /// to the fallback instant instead of failing. Per-layer `created_by`
    /// is never populated.
    pub fn image_info_at(
        &self,
        repository: &str,
        tag: &str,
        manifest: &ImageManifest,
        created_raw: Option<String>,
        author: Option<String>,
        fallback_epoch: i64,
    ) -> (r: ImageInfo)
        requires
            sum_layer_sizes(manifest.layers@) <= u64::MAX,
        ensures
            r.repository@ == repository@,
            r.tag@ == tag@,
            r.digest == manifest.config.digest,
            r.size == sum_layer_sizes(manifest.layers@),
            r.created == (match created_raw {
                Some(s) => match rfc3339_epoch(s@) {
                    Some(t) => t,
                    None => fallback_epoch,
                },
                None => fallback_epoch,
            }),
            r.author == author,
            r.layers@.len() == manifest.layers@.len(),
            forall|i: int|
                0 <= i < r.layers@.len() ==> {
                    &&& (#[trigger] r.layers@[i]).digest == manifest.layers@[i].digest
                    &&& r.layers@[i].size == manifest.layers@[i].size
                    &&& r.layers@[i].media_type == manifest.layers@[i].media_type
                    &&& r.layers@[i].created_by is None
                },
    {
        let mut total: u64 = 0;
        let mut i: usize = 0;
        while i < manifest.layers.len()
            invariant
                0 <= i <= manifest.layers@.len(),
                sum_layer_sizes(manifest.layers@) <= u64::MAX,
                total == sum_layer_sizes(manifest.layers@.take(i as int)),
            decreases manifest.layers@.len() - i,
        {
            proof {
                lemma_sum_take_step(manifest.layers@, i as int);
                lemma_sum_take_le(manifest.layers@, i as int + 1);
            }
            total = total + manifest.layers[i].size;
            i = i + 1;
        }
        proof {
            assert(manifest.layers@.take(manifest.layers@.len() as int) =~= manifest.layers@);
        }
        let created: i64 = match &created_raw {
            Some(s) => {
                match parse_rfc3339_epoch(s.as_str()) {
                    Some(t) => t,
                    None => fallback_epoch,
                }
            },
            None => fallback_epoch,
        };
        let mut layers: Vec<LayerInfo> = Vec::new();
        let mut j: usize = 0;
        while j < manifest.layers.len()
            invariant
                0 <= j <= manifest.layers@.len(),
                layers@.len() == j,
                forall|k: int|
                    0 <= k < j ==> {
                        &&& (#[trigger] layers@[k]).digest == manifest.layers@[k].digest
                        &&& layers@[k].size == manifest.layers@[k].size
                        &&& layers@[k].media_type == manifest.layers@[k].media_type
                        &&& layers@[k].created_by is None
                    },
            decreases manifest.layers@.len() - j,
        {
            layers.push(
                LayerInfo {
                    digest: manifest.layers[j].digest.clone(),
                    size: manifest.layers[j].size,
                    media_type: manifest.layers[j].media_type.clone(),
                    created_by: None,
                },
            );
            j = j + 1;
        }
        ImageInfo {
            repository: repository.to_owned(),
            tag: tag.to_owned(),
            digest: manifest.config.digest.clone(),
            size: total,
            created,
            author,
            layers,
        }
    }

    /// As `image_info_at`, with the current time as the fallback instant.
    pub fn image_info_from(
        &self,
        repository: &str,
        tag: &str,
        manifest: &ImageManifest,
        created_raw: Option<String>,
        author: Option<String>,
    ) -> (r: ImageInfo)
        requires
            sum_layer_sizes(manifest.layers@) <= u64::MAX,
        ensures
            r.repository@ == repository@,
            r.tag@ == tag@,
            r.digest == manifest.config.digest,
            r.size == sum_layer_sizes(manifest.layers@),
            created_raw matches Some(s) ==> (rfc3339_epoch(s@) matches Some(t) ==> r.created == t),
            r.author == author,
            r.layers@.len() == manifest.layers@.len(),
            forall|i: int|
                0 <= i < r.layers@.len() ==> {
                    &&& (#[trigger] r.layers@[i]).digest == manifest.layers@[i].digest
                    &&& r.layers@[i].size == manifest.layers@[i].size
                    &&& r.layers@[i].media_type == manifest.layers@[i].media_type
                    &&& r.layers@[i].created_by is None
                },
    {
        let now = now_epoch();
        self.image_info_at(repository, tag, manifest, created_raw, author, now)
    }
}

} // verus!
