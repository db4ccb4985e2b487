//! The in-memory substitute for the runtime client: the same operations
//! against a fixed entity set, with no network at all. It exists so the
//! runtime-client contract can be exercised without a live runtime; an
//! operation on an unknown container id fails the same way a live runtime's
//! rejection does.

use vstd::prelude::*;
use vstd::string::StringExecFns;

use crate::clock::now_epoch;
use crate::container::{
    Container, ContainerFilter, ContainerStatus, CreateContainerRequest, DiskIo, GamingConfig,
    GpuAllocation, GpuType, IsolationLevel, MemoryUsage, NetworkIo, OptimizationProfile,
    PerformanceMetrics, PortMapping, Protocol, VolumeMount, VolumeType,
};
use crate::error::Error;
use crate::manager::lemma_filter_push;
use crate::registry::clone_opt_string;
use crate::runtime::{ContainerLogsRequest, ContainerStats};
use crate::substr::{contains_seq, str_contains, str_eq};

verus! {

/// Two containers that agree on every field, comparing the vector-valued
/// fields by their contents.
pub open spec fn container_like(a: Container, b: Container) -> bool {
    &&& a.id == b.id
    &&& a.name == b.name
    &&& a.image == b.image
    &&& a.status == b.status
    &&& a.ports@ == b.ports@
    &&& a.volumes@ == b.volumes@
    &&& a.networks@ == b.networks@
    &&& a.env@ == b.env@
    &&& a.labels@ == b.labels@
    &&& a.created_at == b.created_at
    &&& a.started_at == b.started_at
    &&& a.finished_at == b.finished_at
    &&& a.gaming_config == b.gaming_config
    &&& a.gpu_allocation == b.gpu_allocation
    &&& a.performance_metrics == b.performance_metrics
}

/// The first position holding a container with this id.
pub open spec fn find_id(s: Seq<Container>, id: Seq<char>) -> Option<int>
    decreases s.len(),
{
    if s.len() == 0 {
        None
    } else if s[0].id@ == id {
        Some(0)
    } else {
        match find_id(s.drop_first(), id) {
            Some(i) => Some(i + 1),
            None => None,
        }
    }
}

proof fn lemma_find_id_props(s: Seq<Container>, id: Seq<char>)
    ensures
        match find_id(s, id) {
            Some(i) => 0 <= i < s.len() && s[i].id@ == id,
            None => forall|i: int| 0 <= i < s.len() ==> s[i].id@ != id,
        },
    decreases s.len(),
{
    if s.len() > 0 && s[0].id@ != id {
        lemma_find_id_props(s.drop_first(), id);
        match find_id(s.drop_first(), id) {
            Some(j) => {
                assert(s.drop_first()[j] == s[j + 1]);
            },
            None => {
                assert forall|i: int| 0 <= i < s.len() implies s[i].id@ != id by {
                    if i > 0 {
                        assert(s.drop_first()[i - 1] == s[i]);
                    }
                }
            },
        }
    }
}

proof fn lemma_find_id_at(s: Seq<Container>, id: Seq<char>, k: int)
    requires
        0 <= k < s.len(),
        s[k].id@ == id,
        forall|i: int| 0 <= i < k ==> s[i].id@ != id,
    ensures
        find_id(s, id) == Some(k),
    decreases k,
{
    if k > 0 {
        lemma_find_id_at(s.drop_first(), id, k - 1);
    }
}

/// Whether a container passes a list filter; an absent filter or an absent
/// field filters nothing.
pub open spec fn passes_filter(c: Container, f: Option<ContainerFilter>) -> bool {
    match f {
        None => true,
        Some(f) => {
            &&& (match f.status {
                Some(s) => c.status == s,
                None => true,
            })
            &&& (match f.name_contains {
                Some(n) => contains_seq(c.name@, n@),
                None => true,
            })
            &&& (match f.image_contains {
                Some(n) => contains_seq(c.image@, n@),
                None => true,
            })
            &&& (match f.has_gaming_config {
                Some(g) => (c.gaming_config is Some) == g,
                None => true,
            })
            &&& (match f.has_gpu {
                Some(g) => (c.gpu_allocation is Some) == g,
                None => true,
            })
            &&& (match f.network {
                Some(n) => exists|i: int| 0 <= i < c.networks@.len() && c.networks@[i]@ == n@,
                None => true,
            })
        },
    }
}

pub open spec fn no_such_container_msg(id: Seq<char>) -> Seq<char> {
    "No such container: "@ + id
}

/// The canned log text the substitute serves.
pub open spec fn mock_log_text() -> Seq<char> {
    "[INFO] Container started successfully\n[INFO] Application ready to serve requests"@
}

fn dup_string_vec(v: &Vec<String>) -> (r: Vec<String>)
    ensures
        r@ == v@,
{
    let mut r: Vec<String> = Vec::new();
    let mut i: usize = 0;
    while i < v.len()
        invariant
            0 <= i <= v@.len(),
            r@.len() == i,
            forall|k: int| 0 <= k < i ==> r@[k] == v@[k],
        decreases v@.len() - i,
    {
        r.push(v[i].clone());
        i = i + 1;
    }
    proof {
        assert(r@ =~= v@);
    }
    r
}

fn dup_pair_vec(v: &Vec<(String, String)>) -> (r: Vec<(String, String)>)
    ensures
        r@ == v@,
{
    let mut r: Vec<(String, String)> = Vec::new();
    let mut i: usize = 0;
    while i < v.len()
        invariant
            0 <= i <= v@.len(),
            r@.len() == i,
            forall|k: int| 0 <= k < i ==> r@[k] == v@[k],
        decreases v@.len() - i,
    {
        let pair = (v[i].0.clone(), v[i].1.clone());
        r.push(pair);
        i = i + 1;
    }
    proof {
        assert(r@ =~= v@);
    }
    r
}

fn dup_ports(v: &Vec<PortMapping>) -> (r: Vec<PortMapping>)
    ensures
        r@ == v@,
{
    let mut r: Vec<PortMapping> = Vec::new();
    let mut i: usize = 0;
    while i < v.len()
        invariant
            0 <= i <= v@.len(),
            r@.len() == i,
            forall|k: int| 0 <= k < i ==> r@[k] == v@[k],
        decreases v@.len() - i,
    {
        let p = PortMapping {
            container_port: v[i].container_port,
            host_port: v[i].host_port,
            protocol: v[i].protocol,
            host_ip: clone_opt_string(&v[i].host_ip),
        };
        r.push(p);
        i = i + 1;
    }
    proof {
        assert(r@ =~= v@);
    }
    r
}

fn dup_volumes(v: &Vec<VolumeMount>) -> (r: Vec<VolumeMount>)
    ensures
        r@ == v@,
{
    let mut r: Vec<VolumeMount> = Vec::new();
    let mut i: usize = 0;
    while i < v.len()
        invariant
            0 <= i <= v@.len(),
            r@.len() == i,
            forall|k: int| 0 <= k < i ==> r@[k] == v@[k],
        decreases v@.len() - i,
    {
        let m = VolumeMount {
            source: v[i].source.clone(),
            target: v[i].target.clone(),
            read_only: v[i].read_only,
            volume_type: v[i].volume_type,
        };
        r.push(m);
        i = i + 1;
    }
    proof {
        assert(r@ =~= v@);
    }
    r
}

fn dup_gaming(g: &GamingConfig) -> (r: GamingConfig)
    ensures
        r == *g,
{
    GamingConfig {
        proton_version: clone_opt_string(&g.proton_version),
        wine_version: clone_opt_string(&g.wine_version),
        steam_app_id: g.steam_app_id,
        optimization_profile: g.optimization_profile,
        audio_config: g.audio_config,
    }
}

fn dup_gpu(g: &GpuAllocation) -> (r: GpuAllocation)
    ensures
        r == *g,
{
    GpuAllocation {
        device_id: g.device_id.clone(),
        gpu_type: g.gpu_type,
        memory_mb: g.memory_mb,
        compute_units: g.compute_units,
        isolation_level: match &g.isolation_level {
            IsolationLevel::Shared => IsolationLevel::Shared,
            IsolationLevel::Exclusive => IsolationLevel::Exclusive,
            IsolationLevel::Partitioned { partition_id } => IsolationLevel::Partitioned {
                partition_id: partition_id.clone(),
            },
        },
    }
}

/// An exact in-memory copy of a container, field by field.
pub fn duplicate_container(c: &Container) -> (r: Container)
    ensures
        container_like(r, *c),
{
    Container {
        id: c.id.clone(),
        name: c.name.clone(),
        image: c.image.clone(),
        status: match c.status {
            ContainerStatus::Created => ContainerStatus::Created,
            ContainerStatus::Running => ContainerStatus::Running,
            ContainerStatus::Paused => ContainerStatus::Paused,
            ContainerStatus::Restarting => ContainerStatus::Restarting,
            ContainerStatus::Exited { code } => ContainerStatus::Exited { code },
            ContainerStatus::Dead => ContainerStatus::Dead,
            ContainerStatus::Unknown => ContainerStatus::Unknown,
        },
        ports: dup_ports(&c.ports),
        volumes: dup_volumes(&c.volumes),
        networks: dup_string_vec(&c.networks),
        env: dup_pair_vec(&c.env),
        labels: dup_pair_vec(&c.labels),
        created_at: c.created_at,
        started_at: c.started_at,
        finished_at: c.finished_at,
        gaming_config: match &c.gaming_config {
            Some(g) => Some(dup_gaming(g)),
            None => None,
        },
        gpu_allocation: match &c.gpu_allocation {
            Some(g) => Some(dup_gpu(g)),
            None => None,
        },
        performance_metrics: c.performance_metrics,
    }
}

/// Decides whether a container passes a list filter.
pub fn container_passes(c: &Container, filter: &Option<ContainerFilter>) -> (b: bool)
    ensures
        b == passes_filter(*c, *filter),
{
    let f = match filter {
        None => {
            return true;
        },
        Some(f) => f,
    };
    let status_ok = match &f.status {
        Some(s) => c.status == *s,
        None => true,
    };
    if !status_ok {
        return false;
    }
    let name_ok = match &f.name_contains {
        Some(n) => str_contains(c.name.as_str(), n.as_str()),
        None => true,
    };
    if !name_ok {
        return false;
    }
    let image_ok = match &f.image_contains {
        Some(n) => str_contains(c.image.as_str(), n.as_str()),
        None => true,
    };
    if !image_ok {
        return false;
    }
    let gaming_ok = match f.has_gaming_config {
        Some(g) => c.gaming_config.is_some() == g,
        None => true,
    };
    if !gaming_ok {
        return false;
    }
    let gpu_ok = match f.has_gpu {
        Some(g) => c.gpu_allocation.is_some() == g,
        None => true,
    };
    if !gpu_ok {
        return false;
    }
    let network_ok = match &f.network {
        Some(n) => {
            let mut found = false;
            let mut i: usize = 0;
            while i < c.networks.len()
                invariant
                    0 <= i <= c.networks@.len(),
                    found == exists|k: int| 0 <= k < i && (#[trigger] c.networks@[k])@ == n@,
                decreases c.networks@.len() - i,
            {
                if str_eq(c.networks[i].as_str(), n.as_str()) {
                    proof {
                        assert((c.networks@[i as int])@ == n@);
                    }
                    found = true;
                }
                i = i + 1;
            }
            found
        },
        None => true,
    };
    network_ok
}

/// The in-memory runtime substitute, holding its fixed entity set.
#[derive(Debug, Clone, PartialEq)]
pub struct MockBoltClient {
    pub containers: Vec<Container>,
}

impl MockBoltClient {
    /// A container with this id exists in the entity set.
    pub open spec fn spec_has_id(self, id: Seq<char>) -> bool {
        find_id(self.containers@, id) is Some
    }

    /// The substitute with its fixture entity set: a web server, a gaming
    /// container with a GPU, and an exited database.
    pub fn new() -> (r: Self)
        ensures
            r.containers@.len() == 3,
    {
        let now = now_epoch();
        let web = Container {
            id: "mock_web_server_001".to_owned(),
            name: "nginx-web".to_owned(),
            image: "nginx:latest".to_owned(),
            status: ContainerStatus::Running,
            ports: vec![
                PortMapping {
                    container_port: 80,
                    host_port: Some(8080),
                    protocol: Protocol::Tcp,
                    host_ip: Some("0.0.0.0".to_owned()),
                },
            ],
            volumes: Vec::new(),
            networks: vec!["bridge".to_owned()],
            env: Vec::new(),
            labels: Vec::new(),
            created_at: now,
            started_at: Some(now),
            finished_at: None,
            gaming_config: None,
            gpu_allocation: None,
            performance_metrics: Some(
                PerformanceMetrics {
                    cpu_usage: 1520,
                    memory_usage: MemoryUsage { used_mb: 128, limit_mb: 512, percentage: 2500 },
                    gpu_usage: None,
                    network_io: NetworkIo {
                        rx_bytes: 1024000,
                        tx_bytes: 2048000,
                        rx_packets: 1500,
                        tx_packets: 1200,
                    },
                    disk_io: DiskIo {
                        read_bytes: 512000,
                        write_bytes: 256000,
                        read_ops: 100,
                        write_ops: 50,
                    },
                    gaming_metrics: None,
                },
            ),
        };
        let gaming = Container {
            id: "mock_gaming_container_002".to_owned(),
            name: "steam-gaming".to_owned(),
            image: "gaming/steam-proton:latest".to_owned(),
            status: ContainerStatus::Running,
            ports: Vec::new(),
            volumes: vec![
                VolumeMount {
                    source: "/home/user/games".to_owned(),
                    target: "/games".to_owned(),
                    read_only: false,
                    volume_type: VolumeType::Bind,
                },
            ],
            networks: vec!["gaming".to_owned()],
            env: vec![("PROTON_VERSION".to_owned(), "8.0".to_owned())],
            labels: vec![("gaming".to_owned(), "true".to_owned())],
            created_at: now,
            started_at: Some(now),
            finished_at: None,
            gaming_config: Some(
                GamingConfig {
                    proton_version: Some("8.0".to_owned()),
                    wine_version: None,
                    steam_app_id: Some(440),
                    optimization_profile: OptimizationProfile::Gaming,
                    audio_config: None,
                },
            ),
            gpu_allocation: Some(
                GpuAllocation {
                    device_id: "nvidia0".to_owned(),
                    gpu_type: GpuType::Nvidia,
                    memory_mb: Some(8192),
                    compute_units: Some(4096),
                    isolation_level: IsolationLevel::Exclusive,
                },
            ),
            performance_metrics: None,
        };
        let db = Container {
            id: "mock_database_003".to_owned(),
            name: "postgres-db".to_owned(),
            image: "postgres:15".to_owned(),
            status: ContainerStatus::Exited { code: 0 },
            ports: Vec::new(),
            volumes: Vec::new(),
            networks: vec!["database".to_owned()],
            env: Vec::new(),
            labels: Vec::new(),
            created_at: now,
            started_at: Some(now),
            finished_at: Some(now),
            gaming_config: None,
            gpu_allocation: None,
            performance_metrics: None,
        };
        MockBoltClient { containers: vec![web, gaming, db] }
    }

    /// Finds a container's position by id, scanning in order.
    fn find_index(&self, id: &str) -> (r: Option<usize>)
        ensures
            match r {
                Some(i) => find_id(self.containers@, id@) == Some(i as int),
                None => find_id(self.containers@, id@) is None,
            },
    {
        let mut i: usize = 0;
        while i < self.containers.len()
            invariant
                0 <= i <= self.containers@.len(),
                forall|k: int| 0 <= k < i ==> self.containers@[k].id@ != id@,
            decreases self.containers@.len() - i,
        {
            if str_eq(self.containers[i].id.as_str(), id) {
                proof {
                    lemma_find_id_at(self.containers@, id@, i as int);
                }
                return Some(i);
            }
            i = i + 1;
        }
        proof {
            lemma_find_id_props(self.containers@, id@);
            if find_id(self.containers@, id@) is Some {
                assert(false);
            }
        }
        None
    }

    fn not_found(&self, id: &str) -> (e: Error)
        ensures
            e matches Error::Container(m) && m@ == no_such_container_msg(id@),
    {
        Error::Container("No such container: ".to_owned().concat(id))
    }

    /// Lists the entity set, applying the same filter semantics the live
    /// runtime applies server-side. Never fails.
    pub fn list_containers(&self, filter: Option<ContainerFilter>) -> (r: Result<
        Vec<Container>,
        Error,
    >)
        ensures
            r matches Ok(v) && {
                let kept = self.containers@.filter(
                    |c: Container| passes_filter(c, filter),
                );
                &&& v@.len() == kept.len()
                &&& forall|i: int| 0 <= i < v@.len() ==> container_like(#[trigger] v@[i], kept[i])
            },
    {
        let ghost pred = |c: Container| passes_filter(c, filter);
        let mut v: Vec<Container> = Vec::new();
        let mut i: usize = 0;
        proof {
            reveal(Seq::filter);
            assert(self.containers@.take(0) =~= Seq::<Container>::empty());
        }
        while i < self.containers.len()
            invariant
                0 <= i <= self.containers@.len(),
                ({
                    let kept = self.containers@.take(i as int).filter(
                        |c: Container| passes_filter(c, filter),
                    );
                    &&& v@.len() == kept.len()
                    &&& forall|k: int|
                        0 <= k < v@.len() ==> container_like(#[trigger] v@[k], kept[k])
                }),
            decreases self.containers@.len() - i,
        {
            proof {
                lemma_filter_push(
                    self.containers@.take(i as int),
                    |c: Container| passes_filter(c, filter),
                    self.containers@[i as int],
                );
                assert(self.containers@.take(i + 1) =~= self.containers@.take(i as int).push(
                    self.containers@[i as int],
                ));
            }
            if container_passes(&self.containers[i], &filter) {
                v.push(duplicate_container(&self.containers[i]));
            }
            i = i + 1;
        }
        proof {
            assert(self.containers@.take(self.containers@.len() as int) =~= self.containers@);
        }
        Ok(v)
    }

    /// A copy of the container with this id, or the not-found error.
    pub fn get_container(&self, id: &str) -> (r: Result<Container, Error>)
        ensures
            match find_id(self.containers@, id@) {
                Some(i) => r matches Ok(c) && container_like(c, self.containers@[i]),
                None => r matches Err(e) && e matches Error::Container(m) && m@
                    == no_such_container_msg(id@),
            },
    {
        match self.find_index(id) {
            Some(i) => {
                proof {
                    lemma_find_id_props(self.containers@, id@);
                }
                Ok(duplicate_container(&self.containers[i]))
            },
            None => Err(self.not_found(id)),
        }
    }

    /// Starting succeeds exactly for a known id.
    pub fn start_container(&self, id: &str) -> (r: Result<(), Error>)
        ensures
            self.spec_has_id(id@) ==> r is Ok,
            !self.spec_has_id(id@) ==> (r matches Err(e) && e matches Error::Container(m) && m@
                == no_such_container_msg(id@)),
    {
        match self.find_index(id) {
            Some(_) => Ok(()),
            None => Err(self.not_found(id)),
        }
    }

    /// Stopping succeeds exactly for a known id; the timeout is accepted
    /// in the same request shape the live client sends, and ignored.
    pub fn stop_container(&self, id: &str, _timeout: Option<u32>) -> (r: Result<(), Error>)
        ensures
            self.spec_has_id(id@) ==> r is Ok,
            !self.spec_has_id(id@) ==> (r matches Err(e) && e matches Error::Container(m) && m@
                == no_such_container_msg(id@)),
    {
        match self.find_index(id) {
            Some(_) => Ok(()),
            None => Err(self.not_found(id)),
        }
    }

    /// Restarting succeeds exactly for a known id.
    pub fn restart_container(&self, id: &str, _timeout: Option<u32>) -> (r: Result<(), Error>)
        ensures
            self.spec_has_id(id@) ==> r is Ok,
            !self.spec_has_id(id@) ==> (r matches Err(e) && e matches Error::Container(m) && m@
                == no_such_container_msg(id@)),
    {
        match self.find_index(id) {
            Some(_) => Ok(()),
            None => Err(self.not_found(id)),
        }
    }

    /// Removal succeeds exactly for a known id; the entity set itself is
    /// fixed.
    pub fn remove_container(&self, id: &str, _force: bool, _remove_volumes: bool) -> (r: Result<
        (),
        Error,
    >)
        ensures
            self.spec_has_id(id@) ==> r is Ok,
            !self.spec_has_id(id@) ==> (r matches Err(e) && e matches Error::Container(m) && m@
                == no_such_container_msg(id@)),
    {
        match self.find_index(id) {
            Some(_) => Ok(()),
            None => Err(self.not_found(id)),
        }
    }

    /// The canned log text for a known id.
    pub fn get_container_logs(&self, request: &ContainerLogsRequest) -> (r: Result<String, Error>)
        ensures
            self.spec_has_id(request.container_id@) ==> (r matches Ok(s) && s@
                == mock_log_text()),
            !self.spec_has_id(request.container_id@) ==> (r matches Err(e) && e matches
                Error::Container(m) && m@ == no_such_container_msg(request.container_id@)),
    {
        match self.find_index(request.container_id.as_str()) {
            Some(_) => Ok(
                "[INFO] Container started successfully\n[INFO] Application ready to serve requests".to_owned(),
            ),
            None => Err(self.not_found(request.container_id.as_str())),
        }
    }

    /// A stats snapshot for a known id, derived from the container's
    /// recorded metrics; zeros where none are recorded.
    pub fn get_container_stats(&self, id: &str) -> (r: Result<ContainerStats, Error>)
        ensures
            match find_id(self.containers@, id@) {
                Some(i) => r matches Ok(st) && st.container_id@ == id@ && (match self.containers@[
                    i
                ].performance_metrics {
                    Some(m) => st.cpu_percent == m.cpu_usage && st.memory_usage
                        == m.memory_usage.used_mb && st.memory_limit == m.memory_usage.limit_mb
                        && st.network_rx == m.network_io.rx_bytes && st.network_tx
                        == m.network_io.tx_bytes && st.block_read == m.disk_io.read_bytes
                        && st.block_write == m.disk_io.write_bytes && st.pid_count == 1,
                    None => st.cpu_percent == 0 && st.memory_usage == 0 && st.memory_limit == 0
                        && st.network_rx == 0 && st.network_tx == 0 && st.block_read == 0
                        && st.block_write == 0 && st.pid_count == 0,
                }),
                None => r matches Err(e) && e matches Error::Container(m) && m@
                    == no_such_container_msg(id@),
            },
    {
        match self.find_index(id) {
            Some(i) => {
                proof {
                    lemma_find_id_props(self.containers@, id@);
                }
                let now = now_epoch();
                match &self.containers[i].performance_metrics {
                    Some(m) => Ok(
                        ContainerStats {
                            container_id: id.to_owned(),
                            timestamp: now,
                            cpu_percent: m.cpu_usage,
                            memory_usage: m.memory_usage.used_mb,
                            memory_limit: m.memory_usage.limit_mb,
                            network_rx: m.network_io.rx_bytes,
                            network_tx: m.network_io.tx_bytes,
                            block_read: m.disk_io.read_bytes,
                            block_write: m.disk_io.write_bytes,
                            pid_count: 1,
                        },
                    ),
                    None => Ok(
                        ContainerStats {
                            container_id: id.to_owned(),
                            timestamp: now,
                            cpu_percent: 0,
                            memory_usage: 0,
                            memory_limit: 0,
                            network_rx: 0,
                            network_tx: 0,
                            block_read: 0,
                            block_write: 0,
                            pid_count: 0,
                        },
                    ),
                }
            },
            None => Err(self.not_found(id)),
        }
    }

    /// Creates a container entity from the request, with a derived id and
    /// the created status. The fixed entity set itself is not extended.
    pub fn create_container(&self, request: CreateContainerRequest) -> (r: Result<
        Container,
        Error,
    >)
        ensures
            r matches Ok(c) && {
                &&& c.id@ == "mock_"@ + (match request.name {
                    Some(n) => n@,
                    None => "container"@,
                })
                &&& c.name@ == (match request.name {
                    Some(n) => n@,
                    None => "container"@,
                })
                &&& c.image == request.image
                &&& c.status == ContainerStatus::Created
                &&& c.ports == request.ports
                &&& c.volumes == request.volumes
                &&& c.networks == request.networks
                &&& c.env == request.env
                &&& c.labels == request.labels
                &&& c.started_at is None
                &&& c.finished_at is None
                &&& c.gaming_config == request.gaming_config
                &&& c.gpu_allocation == request.gpu_allocation
                &&& c.performance_metrics is None
            },
    {
        let name: String = match request.name {
            Some(n) => n,
            None => "container".to_owned(),
        };
        let id = "mock_".to_owned().concat(name.as_str());
        Ok(
            Container {
                id,
                name,
                image: request.image,
                status: ContainerStatus::Created,
                ports: request.ports,
                volumes: request.volumes,
                networks: request.networks,
                env: request.env,
                labels: request.labels,
                created_at: now_epoch(),
                started_at: None,
                finished_at: None,
                gaming_config: request.gaming_config,
                gpu_allocation: request.gpu_allocation,
                performance_metrics: None,
            },
        )
    }
}

} // verus!
