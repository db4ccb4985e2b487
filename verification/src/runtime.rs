//! The runtime-control client: builds every request of the JSON/HTTP
//! container-control protocol and interprets every response envelope.
//!
//! Lifecycle operations share one generic envelope `{action, container_id,
//! options}` posted to `.../containers/{id}/action`. Every response arrives
//! wrapped in `{success, data?, error?, timestamp}`; a non-2xx status, a
//! `success` flag of false, or a present `error` all count as failure.

use vstd::prelude::*;
use vstd::string::StringExecFns;
use vstd::utf8::encode_utf8;

use crate::container::{ContainerFilter, ContainerStatus, CreateContainerRequest};
use crate::error::Error;
use crate::http::HttpMethod;
use crate::registry::{is_success_status, status_is_success};
use crate::strnum::{bool_rep, bool_to_string, dec_rep, dec_rep_signed, i64_to_string, u64_to_string};
use crate::urlenc::{url_encode, url_encoded_bytes};

verus! {

/// The response envelope every runtime-control call returns.
#[derive(Debug, Clone, PartialEq)]
pub struct BoltResponse<T> {
    pub success: bool,
    pub data: Option<T>,
    pub error: Option<String>,
    /// Unix epoch seconds.
    pub timestamp: i64,
}

/// The extra options a lifecycle operation may attach; absent fields are
/// not sent.
#[derive(Debug, Clone, PartialEq)]
pub struct OperationOptions {
    pub timeout: Option<u32>,
    pub signal: Option<String>,
    pub force: Option<bool>,
    pub volumes: Option<bool>,
}

/// The generic operation envelope posted to `.../containers/{id}/action`.
#[derive(Debug, Clone, PartialEq)]
pub struct ContainerOperation {
    pub action: String,
    pub container_id: String,
    pub options: Option<OperationOptions>,
}

/// A request for container logs.
#[derive(Debug, Clone, PartialEq)]
pub struct ContainerLogsRequest {
    pub container_id: String,
    pub follow: bool,
    pub tail: Option<u32>,
    pub timestamps: bool,
    /// Unix epoch seconds.
    pub since: Option<i64>,
}

/// One point-in-time stats snapshot of a container.
#[derive(Debug, Clone, PartialEq)]
pub struct ContainerStats {
    pub container_id: String,
    /// Unix epoch seconds.
    pub timestamp: i64,
    /// CPU utilization in hundredths of a percent.
    pub cpu_percent: u64,
    pub memory_usage: u64,
    pub memory_limit: u64,
    pub network_rx: u64,
    pub network_tx: u64,
    pub block_read: u64,
    pub block_write: u64,
    pub pid_count: u32,
}

/// System information the runtime reports.
#[derive(Debug, Clone, PartialEq)]
pub struct BoltSystemInfo {
    pub version: String,
    pub api_version: String,
    pub runtime: String,
    pub kernel_version: String,
    pub os: String,
    pub architecture: String,
    pub cpus: u32,
    pub memory_total: u64,
    pub storage_driver: String,
    pub containers_running: u32,
    pub containers_paused: u32,
    pub containers_stopped: u32,
    pub images_count: u32,
}

/// The body of a command execution request.
#[derive(Debug, Clone, PartialEq)]
pub struct ExecRequest {
    pub cmd: Vec<String>,
    pub interactive: bool,
    pub tty: bool,
    pub attach_stdout: bool,
    pub attach_stderr: bool,
}

/// What a runtime request carries in its body.
#[derive(Debug, Clone, PartialEq)]
pub enum RuntimeBody {
    Empty,
    Operation(ContainerOperation),
    Create(CreateContainerRequest),
    Exec(ExecRequest),
}

/// One runtime-control request to perform.
#[derive(Debug, Clone, PartialEq)]
pub struct RuntimeRequest {
    pub method: HttpMethod,
    pub url: String,
    pub body: RuntimeBody,
}

/// The JSON rendering of a status filter value, as it appears in the query
/// string.
pub open spec fn status_json(s: ContainerStatus) -> Seq<char> {
    match s {
        ContainerStatus::Created => "\"Created\""@,
        ContainerStatus::Running => "\"Running\""@,
        ContainerStatus::Paused => "\"Paused\""@,
        ContainerStatus::Restarting => "\"Restarting\""@,
        ContainerStatus::Exited { code } => "{\"Exited\":{\"code\":"@ + dec_rep_signed(code as int)
            + "}}"@,
        ContainerStatus::Dead => "\"Dead\""@,
        ContainerStatus::Unknown => "\"Unknown\""@,
    }
}

/// Renders a status filter value as its JSON text.
pub fn status_param(s: &ContainerStatus) -> (r: String)
    ensures
        r@ == status_json(*s),
{
    match s {
        ContainerStatus::Created => "\"Created\"".to_owned(),
        ContainerStatus::Running => "\"Running\"".to_owned(),
        ContainerStatus::Paused => "\"Paused\"".to_owned(),
        ContainerStatus::Restarting => "\"Restarting\"".to_owned(),
        ContainerStatus::Exited { code } => "{\"Exited\":{\"code\":".to_owned().concat(
            i64_to_string(*code as i64).as_str(),
        ).concat("}}"),
        ContainerStatus::Dead => "\"Dead\"".to_owned(),
        ContainerStatus::Unknown => "\"Unknown\"".to_owned(),
    }
}

/// The views of a vector of strings.
pub open spec fn views_of(parts: Seq<String>) -> Seq<Seq<char>> {
    Seq::new(parts.len(), |i: int| parts[i]@)
}

/// Query parameters joined with `&`.
pub open spec fn join_amp(parts: Seq<Seq<char>>) -> Seq<char>
    decreases parts.len(),
{
    if parts.len() == 0 {
        Seq::empty()
    } else if parts.len() == 1 {
        parts[0]
    } else {
        parts[0] + seq!['&'] + join_amp(parts.drop_first())
    }
}

proof fn lemma_join_amp_push(parts: Seq<Seq<char>>, x: Seq<char>)
    ensures
        join_amp(parts.push(x)) == if parts.len() == 0 {
            x
        } else {
            join_amp(parts) + seq!['&'] + x
        },
    decreases parts.len(),
{
    let p = parts.push(x);
    if parts.len() == 0 {
        assert(p[0] == x);
        assert(p.len() == 1);
    } else if parts.len() == 1 {
        assert(p[0] == parts[0]);
        assert(p.drop_first() =~= seq![x]);
        assert(join_amp(p.drop_first()) == x);
        assert(join_amp(parts) == parts[0]);
    } else {
        assert(p[0] == parts[0]);
        assert(p.drop_first() =~= parts.drop_first().push(x));
        lemma_join_amp_push(parts.drop_first(), x);
        assert(p.drop_first().len() > 0);
        assert(join_amp(p) == p[0] + seq!['&'] + join_amp(parts.drop_first().push(x)));
        assert(parts[0] + seq!['&'] + (join_amp(parts.drop_first()) + seq!['&'] + x) =~= (parts[0]
            + seq!['&'] + join_amp(parts.drop_first())) + seq!['&'] + x);
    }
}

/// Joins query parameters with `&`.
fn join_params(parts: &Vec<String>) -> (r: String)
    ensures
        r@ == join_amp(views_of(parts@)),
{
    let mut r = String::new();
    let mut i: usize = 0;
    proof {
        assert(views_of(parts@.take(0)) =~= Seq::<Seq<char>>::empty());
    }
    while i < parts.len()
        invariant
            0 <= i <= parts@.len(),
            r@ == join_amp(views_of(parts@.take(i as int))),
        decreases parts@.len() - i,
    {
        proof {
            assert(views_of(parts@.take(i + 1)) =~= views_of(parts@.take(i as int)).push(
                parts@[i as int]@,
            ));
            lemma_join_amp_push(views_of(parts@.take(i as int)), parts@[i as int]@);
        }
        proof {
            reveal_strlit("&");
            assert("&"@ =~= seq!['&']);
        }
        if i > 0 {
            r.append("&");
        }
        r.append(parts[i].as_str());
        proof {
            let vs = views_of(parts@.take(i as int));
            if i == 0 {
                assert(vs.len() == 0);
                assert(join_amp(vs) + parts@[i as int]@ =~= parts@[i as int]@);
            } else {
                assert(vs.len() > 0);
            }
        }
        i = i + 1;
    }
    proof {
        assert(parts@.take(parts@.len() as int) =~= parts@);
    }
    r
}

/// The query parameters a filter contributes, in protocol order: status,
/// name, image, gaming, gpu. Text values are percent-encoded.
pub open spec fn filter_params(f: ContainerFilter) -> Seq<Seq<char>> {
    (match f.status {
        Some(s) => seq!["status="@ + status_json(s)],
        None => Seq::<Seq<char>>::empty(),
    }) + (match f.name_contains {
        Some(n) => seq!["name="@ + url_encoded_bytes(encode_utf8(n@))],
        None => Seq::<Seq<char>>::empty(),
    }) + (match f.image_contains {
        Some(n) => seq!["image="@ + url_encoded_bytes(encode_utf8(n@))],
        None => Seq::<Seq<char>>::empty(),
    }) + (match f.has_gaming_config {
        Some(g) => seq!["gaming="@ + bool_rep(g)],
        None => Seq::<Seq<char>>::empty(),
    }) + (match f.has_gpu {
        Some(g) => seq!["gpu="@ + bool_rep(g)],
        None => Seq::<Seq<char>>::empty(),
    })
}

/// What a filter appends to the list URL: nothing when absent or empty,
/// else `?` and the joined parameters.
pub open spec fn query_suffix(f: Option<ContainerFilter>) -> Seq<char> {
    match f {
        None => Seq::empty(),
        Some(f) => if filter_params(f).len() == 0 {
            Seq::empty()
        } else {
            seq!['?'] + join_amp(filter_params(f))
        },
    }
}

/// The query parameters of a logs request, in protocol order: follow and
/// timestamps always, then tail and since when present.
pub open spec fn logs_params(r: ContainerLogsRequest) -> Seq<Seq<char>> {
    seq!["follow="@ + bool_rep(r.follow), "timestamps="@ + bool_rep(r.timestamps)] + (match r.tail {
        Some(t) => seq!["tail="@ + dec_rep(t as int)],
        None => Seq::<Seq<char>>::empty(),
    }) + (match r.since {
        Some(t) => seq!["since="@ + dec_rep_signed(t as int)],
        None => Seq::<Seq<char>>::empty(),
    })
}

pub open spec fn operation_failed_msg(action: Seq<char>, status: u16) -> Seq<char> {
    "Operation "@ + action + " failed: "@ + dec_rep(status as int)
}

pub open spec fn operation_schema_msg() -> Seq<char> {
    "Operation response did not match the expected schema"@
}

pub open spec fn operation_rejected_msg(error: Option<String>) -> Seq<char> {
    "Runtime operation failed: "@ + (match error {
        Some(e) => e@,
        None => "unknown error"@,
    })
}

pub open spec fn data_failed_msg(what: Seq<char>, status: u16) -> Seq<char> {
    "Failed to "@ + what + ": "@ + dec_rep(status as int)
}

pub open spec fn data_schema_msg(what: Seq<char>) -> Seq<char> {
    "Response for "@ + what + " did not match the expected schema"@
}

pub open spec fn data_rejected_msg(what: Seq<char>, error: Option<String>) -> Seq<char> {
    "Runtime API error for "@ + what + ": "@ + (match error {
        Some(e) => e@,
        None => "no data in response"@,
    })
}

/// A client of the runtime-control API: it owns the base URL and decides
/// every request and every response's meaning.
#[derive(Debug, Clone, PartialEq)]
pub struct BoltClient {
    pub base_url: String,
}

impl BoltClient {
    pub fn new(base_url: &str) -> (r: Self)
        ensures
            r.base_url@ == base_url@,
    {
        BoltClient { base_url: base_url.to_owned() }
    }

    /// The availability probe: `GET {base}/ping`.
    pub fn ping_request(&self) -> (r: RuntimeRequest)
        ensures
            r.method == HttpMethod::Get,
            r.url@ == self.base_url@ + "/ping"@,
            r.body is Empty,
    {
        RuntimeRequest {
            method: HttpMethod::Get,
            url: self.base_url.clone().concat("/ping"),
            body: RuntimeBody::Empty,
        }
    }

    /// The runtime is available exactly when the probe got a 2xx answer;
    /// a transport failure (no status at all) reads as unavailable.
    pub fn interpret_ping(&self, status: Option<u16>) -> (r: bool)
        ensures
            r == match status {
                Some(s) => is_success_status(s),
                None => false,
            },
    {
        match status {
            Some(s) => status_is_success(s),
            None => false,
        }
    }

    /// `GET {base}/system/info`.
    pub fn system_info_request(&self) -> (r: RuntimeRequest)
        ensures
            r.method == HttpMethod::Get,
            r.url@ == self.base_url@ + "/system/info"@,
            r.body is Empty,
    {
        RuntimeRequest {
            method: HttpMethod::Get,
            url: self.base_url.clone().concat("/system/info"),
            body: RuntimeBody::Empty,
        }
    }

    /// The list request: `GET {base}/containers`, with filter values as
    /// query parameters only where present — an absent filter adds no
    /// query string at all.
    #[verifier::rlimit(100)]
    pub fn list_containers_request(&self, filter: &Option<ContainerFilter>) -> (r: RuntimeRequest)
        ensures
            r.method == HttpMethod::Get,
            r.url@ == self.base_url@ + "/containers"@ + query_suffix(*filter),
            r.body is Empty,
    {
        let base = self.base_url.clone().concat("/containers");
        let url = match filter {
            None => base,
            Some(f) => {
                let mut parts: Vec<String> = Vec::new();
                proof {
                    assert(views_of(parts@) =~= Seq::<Seq<char>>::empty());
                }
                if let Some(s) = &f.status {
                    parts.push("status=".to_owned().concat(status_param(s).as_str()));
                }
                let ghost with_status = views_of(parts@);
                proof {
                    assert(with_status =~= match f.status {
                        Some(s) => seq!["status="@ + status_json(s)],
                        None => Seq::<Seq<char>>::empty(),
                    });
                }
                if let Some(n) = &f.name_contains {
                    parts.push("name=".to_owned().concat(url_encode(n.as_str()).as_str()));
                }
                let ghost with_name = views_of(parts@);
                proof {
                    assert(with_name =~= with_status + match f.name_contains {
                        Some(n) => seq!["name="@ + url_encoded_bytes(encode_utf8(n@))],
                        None => Seq::<Seq<char>>::empty(),
                    });
                }
                if let Some(n) = &f.image_contains {
                    parts.push("image=".to_owned().concat(url_encode(n.as_str()).as_str()));
                }
                let ghost with_image = views_of(parts@);
                proof {
                    assert(with_image =~= with_name + match f.image_contains {
                        Some(n) => seq!["image="@ + url_encoded_bytes(encode_utf8(n@))],
                        None => Seq::<Seq<char>>::empty(),
                    });
                }
                if let Some(g) = f.has_gaming_config {
                    parts.push("gaming=".to_owned().concat(bool_to_string(g).as_str()));
                }
                let ghost with_gaming = views_of(parts@);
                proof {
                    assert(with_gaming =~= with_image + match f.has_gaming_config {
                        Some(g) => seq!["gaming="@ + bool_rep(g)],
                        None => Seq::<Seq<char>>::empty(),
                    });
                }
                if let Some(g) = f.has_gpu {
                    parts.push("gpu=".to_owned().concat(bool_to_string(g).as_str()));
                }
                proof {
                    assert(views_of(parts@) =~= with_gaming + match f.has_gpu {
                        Some(g) => seq!["gpu="@ + bool_rep(g)],
                        None => Seq::<Seq<char>>::empty(),
                    });
                    assert(views_of(parts@) =~= filter_params(*f));
                }
                if parts.len() == 0 {
                    proof {
                        assert(self.base_url@ + "/containers"@ + query_suffix(*filter)
                            =~= self.base_url@ + "/containers"@);
                    }
                    base
                } else {
                    proof {
                        reveal_strlit("?");
                        assert("?"@ =~= seq!['?']);
                        assert((self.base_url@ + "/containers"@) + "?"@ + join_amp(
                            filter_params(*f),
                        ) =~= self.base_url@ + "/containers"@ + (seq!['?'] + join_amp(
                            filter_params(*f),
                        )));
                    }
                    base.concat("?").concat(join_params(&parts).as_str())
                }
            },
        };
        proof {
            if filter is None {
                assert(self.base_url@ + "/containers"@ + query_suffix(*filter) =~= self.base_url@
                    + "/containers"@);
            }
        }
        RuntimeRequest { method: HttpMethod::Get, url, body: RuntimeBody::Empty }
    }

    /// `GET {base}/containers/{id}`.
    pub fn get_container_request(&self, id: &str) -> (r: RuntimeRequest)
        ensures
            r.method == HttpMethod::Get,
            r.url@ == self.base_url@ + "/containers/"@ + id@,
            r.body is Empty,
    {
        RuntimeRequest {
            method: HttpMethod::Get,
            url: self.base_url.clone().concat("/containers/").concat(id),
            body: RuntimeBody::Empty,
        }
    }

    /// The generic operation envelope: `POST {base}/containers/{id}/action`
    /// carrying `{action, container_id, options}`.
    pub fn operation_request(
        &self,
        container_id: &str,
        action: &str,
        options: Option<OperationOptions>,
    ) -> (r: RuntimeRequest)
        ensures
            r.method == HttpMethod::Post,
            r.url@ == self.base_url@ + "/containers/"@ + container_id@ + "/action"@,
            r.body matches RuntimeBody::Operation(op) && op.action@ == action@
                && op.container_id@ == container_id@ && op.options == options,
    {
        RuntimeRequest {
            method: HttpMethod::Post,
            url: self.base_url.clone().concat("/containers/").concat(container_id).concat(
                "/action",
            ),
            body: RuntimeBody::Operation(
                ContainerOperation {
                    action: action.to_owned(),
                    container_id: container_id.to_owned(),
                    options,
                },
            ),
        }
    }

    /// The start operation: no options.
    pub fn start_container_request(&self, id: &str) -> (r: RuntimeRequest)
        ensures
            r.method == HttpMethod::Post,
            r.url@ == self.base_url@ + "/containers/"@ + id@ + "/action"@,
            r.body matches RuntimeBody::Operation(op) && op.action@ == "start"@
                && op.container_id@ == id@ && op.options is None,
    {
        self.operation_request(id, "start", None)
    }

    /// The stop operation, with its optional timeout in seconds.
    pub fn stop_container_request(&self, id: &str, timeout: Option<u32>) -> (r: RuntimeRequest)
        ensures
            r.method == HttpMethod::Post,
            r.url@ == self.base_url@ + "/containers/"@ + id@ + "/action"@,
            r.body matches RuntimeBody::Operation(op) && op.action@ == "stop"@
                && op.container_id@ == id@ && (op.options matches Some(o) && o.timeout == timeout
                && o.signal is None && o.force is None && o.volumes is None),
    {
        self.operation_request(
            id,
            "stop",
            Some(OperationOptions { timeout, signal: None, force: None, volumes: None }),
        )
    }

    /// The restart operation, with its optional timeout in seconds.
    pub fn restart_container_request(&self, id: &str, timeout: Option<u32>) -> (r: RuntimeRequest)
        ensures
            r.method == HttpMethod::Post,
            r.url@ == self.base_url@ + "/containers/"@ + id@ + "/action"@,
            r.body matches RuntimeBody::Operation(op) && op.action@ == "restart"@
                && op.container_id@ == id@ && (op.options matches Some(o) && o.timeout == timeout
                && o.signal is None && o.force is None && o.volumes is None),
    {
        self.operation_request(
            id,
            "restart",
            Some(OperationOptions { timeout, signal: None, force: None, volumes: None }),
        )
    }

    /// The pause operation: no options.
    pub fn pause_container_request(&self, id: &str) -> (r: RuntimeRequest)
        ensures
            r.method == HttpMethod::Post,
            r.url@ == self.base_url@ + "/containers/"@ + id@ + "/action"@,
            r.body matches RuntimeBody::Operation(op) && op.action@ == "pause"@
                && op.container_id@ == id@ && op.options is None,
    {
        self.operation_request(id, "pause", None)
    }

    /// The unpause operation: no options.
    pub fn unpause_container_request(&self, id: &str) -> (r: RuntimeRequest)
        ensures
            r.method == HttpMethod::Post,
            r.url@ == self.base_url@ + "/containers/"@ + id@ + "/action"@,
            r.body matches RuntimeBody::Operation(op) && op.action@ == "unpause"@
                && op.container_id@ == id@ && op.options is None,
    {
        self.operation_request(id, "unpause", None)
    }

    /// The kill operation, with its optional signal name.
    pub fn kill_container_request(&self, id: &str, signal: Option<&str>) -> (r: RuntimeRequest)
        ensures
            r.method == HttpMethod::Post,
            r.url@ == self.base_url@ + "/containers/"@ + id@ + "/action"@,
            r.body matches RuntimeBody::Operation(op) && op.action@ == "kill"@
                && op.container_id@ == id@ && (op.options matches Some(o) && o.timeout is None
                && o.force is None && o.volumes is None && (match signal {
                Some(s) => o.signal matches Some(t) && t@ == s@,
                None => o.signal is None,
            })),
    {
        let sig = match signal {
            Some(s) => Some(s.to_owned()),
            None => None,
        };
        self.operation_request(
            id,
            "kill",
            Some(OperationOptions { timeout: None, signal: sig, force: None, volumes: None }),
        )
    }

    /// The remove operation; force and volume removal are always stated.
    pub fn remove_container_request(&self, id: &str, force: bool, remove_volumes: bool) -> (r:
        RuntimeRequest)
        ensures
            r.method == HttpMethod::Post,
            r.url@ == self.base_url@ + "/containers/"@ + id@ + "/action"@,
            r.body matches RuntimeBody::Operation(op) && op.action@ == "remove"@
                && op.container_id@ == id@ && (op.options matches Some(o) && o.timeout is None
                && o.signal is None && o.force == Some(force) && o.volumes == Some(remove_volumes)),
    {
        self.operation_request(
            id,
            "remove",
            Some(
                OperationOptions {
                    timeout: None,
                    signal: None,
                    force: Some(force),
                    volumes: Some(remove_volumes),
                },
            ),
        )
    }

    /// The creation request: `POST {base}/containers` carrying the full
    /// container specification.
    pub fn create_container_request(&self, request: CreateContainerRequest) -> (r: RuntimeRequest)
        ensures
            r.method == HttpMethod::Post,
            r.url@ == self.base_url@ + "/containers"@,
            r.body == RuntimeBody::Create(request),
    {
        RuntimeRequest {
            method: HttpMethod::Post,
            url: self.base_url.clone().concat("/containers"),
            body: RuntimeBody::Create(request),
        }
    }

    /// The logs request: `GET {base}/containers/{id}/logs?...` with follow
    /// and timestamps always present, tail and since only when set.
    pub fn logs_request(&self, request: &ContainerLogsRequest) -> (r: RuntimeRequest)
        ensures
            r.method == HttpMethod::Get,
            r.url@ == self.base_url@ + "/containers/"@ + request.container_id@ + "/logs?"@
                + join_amp(logs_params(*request)),
            r.body is Empty,
    {
        let mut parts: Vec<String> = Vec::new();
        parts.push("follow=".to_owned().concat(bool_to_string(request.follow).as_str()));
        parts.push("timestamps=".to_owned().concat(bool_to_string(request.timestamps).as_str()));
        let ghost base_params = views_of(parts@);
        proof {
            assert(base_params =~= seq![
                "follow="@ + bool_rep(request.follow),
                "timestamps="@ + bool_rep(request.timestamps),
            ]);
        }
        if let Some(t) = request.tail {
            parts.push("tail=".to_owned().concat(u64_to_string(t as u64).as_str()));
        }
        let ghost with_tail = views_of(parts@);
        proof {
            assert(with_tail =~= base_params + match request.tail {
                Some(t) => seq!["tail="@ + dec_rep(t as int)],
                None => Seq::<Seq<char>>::empty(),
            });
        }
        if let Some(t) = request.since {
            parts.push("since=".to_owned().concat(i64_to_string(t).as_str()));
        }
        proof {
            assert(views_of(parts@) =~= with_tail + match request.since {
                Some(t) => seq!["since="@ + dec_rep_signed(t as int)],
                None => Seq::<Seq<char>>::empty(),
            });
            assert(views_of(parts@) =~= logs_params(*request));
        }
        let query = join_params(&parts);
        RuntimeRequest {
            method: HttpMethod::Get,
            url: self.base_url.clone().concat("/containers/").concat(
                request.container_id.as_str(),
            ).concat("/logs?").concat(query.as_str()),
            body: RuntimeBody::Empty,
        }
    }

    /// `GET {base}/containers/{id}/stats`.
    pub fn stats_request(&self, id: &str) -> (r: RuntimeRequest)
        ensures
            r.method == HttpMethod::Get,
            r.url@ == self.base_url@ + "/containers/"@ + id@ + "/stats"@,
            r.body is Empty,
    {
        RuntimeRequest {
            method: HttpMethod::Get,
            url: self.base_url.clone().concat("/containers/").concat(id).concat("/stats"),
            body: RuntimeBody::Empty,
        }
    }

    /// The command execution request: `POST {base}/containers/{id}/exec`.
    /// An interactive execution also allocates a TTY; output streams are
    /// always attached.
    pub fn exec_container_request(&self, id: &str, cmd: Vec<String>, interactive: bool) -> (r:
        RuntimeRequest)
        ensures
            r.method == HttpMethod::Post,
            r.url@ == self.base_url@ + "/containers/"@ + id@ + "/exec"@,
            r.body matches RuntimeBody::Exec(e) && e.cmd == cmd && e.interactive == interactive
                && e.tty == interactive && e.attach_stdout && e.attach_stderr,
    {
        RuntimeRequest {
            method: HttpMethod::Post,
            url: self.base_url.clone().concat("/containers/").concat(id).concat("/exec"),
            body: RuntimeBody::Exec(
                ExecRequest {
                    cmd,
                    interactive,
                    tty: interactive,
                    attach_stdout: true,
                    attach_stderr: true,
                },
            ),
        }
    }

    /// What an operation response means. Success needs all three: a 2xx
    /// status, a true `success` flag, and no embedded error.
    pub fn interpret_operation_response(
        &self,
        action: &str,
        status: u16,
        envelope: Option<BoltResponse<()>>,
    ) -> (r: Result<(), Error>)
        ensures
            !is_success_status(status) ==> (r matches Err(e) && e matches Error::Network(m) && m@
                == operation_failed_msg(action@, status)),
            is_success_status(status) && envelope is None ==> (r matches Err(e) && e matches
                Error::Serialization(m) && m@ == operation_schema_msg()),
            is_success_status(status) ==> (envelope matches Some(env) ==> (env.success
                && env.error is None ==> r is Ok)),
            is_success_status(status) ==> (envelope matches Some(env) ==> (!(env.success
                && env.error is None) ==> (r matches Err(e) && e matches Error::Container(m) && m@
                == operation_rejected_msg(env.error)))),
    {
        if !status_is_success(status) {
            let msg = "Operation ".to_owned().concat(action).concat(" failed: ").concat(
                u64_to_string(status as u64).as_str(),
            );
            return Err(Error::Network(msg));
        }
        match envelope {
            None => Err(
                Error::Serialization(
                    "Operation response did not match the expected schema".to_owned(),
                ),
            ),
            Some(env) => {
                if env.success && env.error.is_none() {
                    Ok(())
                } else {
                    let msg = "Runtime operation failed: ".to_owned().concat(
                        match &env.error {
                            Some(e) => e.as_str(),
                            None => "unknown error",
                        },
                    );
                    Err(Error::Container(msg))
                }
            },
        }
    }

    /// What a data-carrying response means. The data is returned exactly
    /// when the status is 2xx, the envelope parsed, its `success` flag is
    /// true, no error is embedded, and the data is present.
    pub fn interpret_data_response<T>(
        &self,
        what: &str,
        status: u16,
        envelope: Option<BoltResponse<T>>,
    ) -> (r: Result<T, Error>)
        ensures
            !is_success_status(status) ==> (r matches Err(e) && e matches Error::Network(m) && m@
                == data_failed_msg(what@, status)),
            is_success_status(status) && envelope is None ==> (r matches Err(e) && e matches
                Error::Serialization(m) && m@ == data_schema_msg(what@)),
            is_success_status(status) ==> (envelope matches Some(env) ==> (env.success
                && env.error is None ==> (match env.data {
                Some(d) => r == Ok::<T, Error>(d),
                None => r matches Err(e) && e matches Error::Bolt(m) && m@ == data_rejected_msg(
                    what@,
                    env.error,
                ),
            }))),
            is_success_status(status) ==> (envelope matches Some(env) ==> (!(env.success
                && env.error is None) ==> (r matches Err(e) && e matches Error::Bolt(m) && m@
                == data_rejected_msg(what@, env.error)))),
    {
        if !status_is_success(status) {
            let msg = "Failed to ".to_owned().concat(what).concat(": ").concat(
                u64_to_string(status as u64).as_str(),
            );
            return Err(Error::Network(msg));
        }
        match envelope {
            None => {
                let msg = "Response for ".to_owned().concat(what).concat(
                    " did not match the expected schema",
                );
                Err(Error::Serialization(msg))
            },
            Some(env) => {
                if env.success && env.error.is_none() {
                    match env.data {
                        Some(d) => Ok(d),
                        None => {
                            let msg = "Runtime API error for ".to_owned().concat(what).concat(
                                ": ",
                            ).concat("no data in response");
                            Err(Error::Bolt(msg))
                        },
                    }
                } else {
                    let msg = "Runtime API error for ".to_owned().concat(what).concat(": ").concat(
                        match &env.error {
                            Some(e) => e.as_str(),
                            None => "no data in response",
                        },
                    );
                    Err(Error::Bolt(msg))
                }
            },
        }
    }
}

} // verus!
