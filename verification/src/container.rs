//! The wire-level data model of runtime containers: read-only projections
//! of remote state. This layer never mutates these values locally.
//!
//! Timestamps are Unix epoch seconds. Ratios that the runtime reports as
//! fractions (CPU and memory percentages, GPU utilization, frame rates and
//! latencies) are carried as integers in hundredths of their unit, so that
//! the values stay plain data.

use vstd::prelude::*;

verus! {

/// One container as the runtime reports it.
#[derive(Debug, Clone, PartialEq)]
pub struct Container {
    pub id: String,
    pub name: String,
    pub image: String,
    pub status: ContainerStatus,
    pub ports: Vec<PortMapping>,
    pub volumes: Vec<VolumeMount>,
    pub networks: Vec<String>,
    /// Environment variables as name/value pairs.
    pub env: Vec<(String, String)>,
    /// Labels as name/value pairs.
    pub labels: Vec<(String, String)>,
    pub created_at: i64,
    pub started_at: Option<i64>,
    pub finished_at: Option<i64>,
    pub gaming_config: Option<GamingConfig>,
    pub gpu_allocation: Option<GpuAllocation>,
    pub performance_metrics: Option<PerformanceMetrics>,
}

#[derive(Debug, Clone, PartialEq, Eq, Structural)]
pub enum ContainerStatus {
    Created,
    Running,
    Paused,
    Restarting,
    Exited { code: i32 },
    Dead,
    Unknown,
}

#[derive(Debug, Clone, PartialEq)]
pub struct PortMapping {
    pub container_port: u16,
    pub host_port: Option<u16>,
    pub protocol: Protocol,
    pub host_ip: Option<String>,
}

#[derive(Debug, Clone, Copy, PartialEq, Eq, Structural)]
pub enum Protocol {
    Tcp,
    Udp,
    Quic,
}

#[derive(Debug, Clone, PartialEq)]
pub struct VolumeMount {
    pub source: String,
    pub target: String,
    pub read_only: bool,
    pub volume_type: VolumeType,
}

#[derive(Debug, Clone, Copy, PartialEq, Eq, Structural)]
pub enum VolumeType {
    Bind,
    Volume,
    Tmpfs,
}

/// Gaming-specific configuration of a container.
#[derive(Debug, Clone, PartialEq)]
pub struct GamingConfig {
    pub proton_version: Option<String>,
    pub wine_version: Option<String>,
    pub steam_app_id: Option<u32>,
    pub optimization_profile: OptimizationProfile,
    pub audio_config: Option<AudioConfig>,
}

#[derive(Debug, Clone, Copy, PartialEq, Eq, Structural)]
pub enum OptimizationProfile {
    Gaming,
    Streaming,
    Competitive,
    Balanced,
    PowerSaving,
}

#[derive(Debug, Clone, Copy, PartialEq, Eq, Structural)]
pub struct AudioConfig {
    pub system: AudioSystem,
    pub latency: AudioLatency,
}

#[derive(Debug, Clone, Copy, PartialEq, Eq, Structural)]
pub enum AudioSystem {
    PulseAudio,
    PipeWire,
    Alsa,
}

#[derive(Debug, Clone, Copy, PartialEq, Eq, Structural)]
pub enum AudioLatency {
    UltraLow,
    Low,
    Normal,
    High,
}

/// GPU allocation of a gaming container.
#[derive(Debug, Clone, PartialEq)]
pub struct GpuAllocation {
    pub device_id: String,
    pub gpu_type: GpuType,
    pub memory_mb: Option<u64>,
    pub compute_units: Option<u32>,
    pub isolation_level: IsolationLevel,
}

#[derive(Debug, Clone, Copy, PartialEq, Eq, Structural)]
pub enum GpuType {
    Nvidia,
    Amd,
    Intel,
}

#[derive(Debug, Clone, PartialEq)]
pub enum IsolationLevel {
    Shared,
    Exclusive,
    Partitioned { partition_id: String },
}

/// A point-in-time performance snapshot; no history is retained here.
#[derive(Debug, Clone, Copy, PartialEq, Eq, Structural)]
pub struct PerformanceMetrics {
    /// CPU utilization in hundredths of a percent.
    pub cpu_usage: u64,
    pub memory_usage: MemoryUsage,
    pub gpu_usage: Option<GpuUsage>,
    pub network_io: NetworkIo,
    pub disk_io: DiskIo,
    pub gaming_metrics: Option<GamingMetrics>,
}

#[derive(Debug, Clone, Copy, PartialEq, Eq, Structural)]
pub struct MemoryUsage {
    pub used_mb: u64,
    pub limit_mb: u64,
    /// Usage in hundredths of a percent.
    pub percentage: u64,
}

#[derive(Debug, Clone, Copy, PartialEq, Eq, Structural)]
pub struct GpuUsage {
    /// Utilization in hundredths of a percent.
    pub utilization: u64,
    pub memory_used_mb: u64,
    pub memory_total_mb: u64,
    /// Temperature in hundredths of a degree Celsius.
    pub temperature: Option<u32>,
    /// Power draw in hundredths of a watt.
    pub power_usage: Option<u32>,
}

#[derive(Debug, Clone, Copy, PartialEq, Eq, Structural)]
pub struct NetworkIo {
    pub rx_bytes: u64,
    pub tx_bytes: u64,
    pub rx_packets: u64,
    pub tx_packets: u64,
}

#[derive(Debug, Clone, Copy, PartialEq, Eq, Structural)]
pub struct DiskIo {
    pub read_bytes: u64,
    pub write_bytes: u64,
    pub read_ops: u64,
    pub write_ops: u64,
}

/// Gaming-specific performance metrics, each in hundredths of its unit.
#[derive(Debug, Clone, Copy, PartialEq, Eq, Structural)]
pub struct GamingMetrics {
    pub fps: Option<u32>,
    pub frame_time_ms: Option<u32>,
    pub input_latency_ms: Option<u32>,
    pub network_latency_ms: Option<u32>,
    pub gpu_temperature: Option<u32>,
}

/// A request to create a container.
#[derive(Debug, Clone, PartialEq)]
pub struct CreateContainerRequest {
    pub name: Option<String>,
    pub image: String,
    pub ports: Vec<PortMapping>,
    pub volumes: Vec<VolumeMount>,
    pub networks: Vec<String>,
    pub env: Vec<(String, String)>,
    pub labels: Vec<(String, String)>,
    pub gaming_config: Option<GamingConfig>,
    pub gpu_allocation: Option<GpuAllocation>,
    pub restart_policy: RestartPolicy,
}

#[derive(Debug, Clone, PartialEq, Eq, Structural)]
pub enum RestartPolicy {
    No,
    Always,
    OnFailure { max_retries: Option<u32> },
    UnlessStopped,
}

impl Default for RestartPolicy {
    /// The default policy: never restart.
    fn default() -> (r: Self)
        ensures
            r == RestartPolicy::No,
    {
        RestartPolicy::No
    }
}

/// Server-side filters for listing containers; an absent field filters
/// nothing.
#[derive(Debug, Clone, PartialEq)]
pub struct ContainerFilter {
    pub status: Option<ContainerStatus>,
    pub name_contains: Option<String>,
    pub image_contains: Option<String>,
    pub has_gaming_config: Option<bool>,
    pub has_gpu: Option<bool>,
    pub network: Option<String>,
}

} // verus!
