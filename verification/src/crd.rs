//! The typed custom-resource specs consumed by the reconciliation core.
//!
//! A `Backup` asks for one backup run; a `ScheduledBackup` embeds a
//! `BackupSpec` and adds a cron schedule. Schema delivery and validation
//! are an external collaborator's concern: the library treats these values
//! as validated input, immutable for the duration of one reconcile.

use vstd::prelude::*;

use crate::k8s::{
    Affinity, EnvFromSource, EnvVar, ObjectMeta, ResourceRequirements, SecretKeySelector,
    SecurityContext, Time, Volume, VolumeMount,
};

verus! {

/// Where the backup repository lives and how to authenticate against it.
#[derive(Debug, Clone, PartialEq, Eq)]
pub struct Repository {
    /// Repository type.
    pub repository_type: RepositoryType,
    /// Repository URI, without the repository-type prefix.
    pub uri: String,
    /// Secret to read the repository password from.
    pub password: SecretKeySelector,
    /// REST repository credentials.
    pub rest_credentials: Option<RestCredentials>,
}

/// The kind of repository backend.
#[derive(Debug, Clone, Copy, PartialEq, Eq, Structural)]
#[non_exhaustive]
pub enum RepositoryType {
    Rest,
}

impl Default for RepositoryType {
    fn default() -> (r: RepositoryType)
        ensures
            r == RepositoryType::Rest,
    {
        RepositoryType::Rest
    }
}

/// The type-prefixed form of a repository URI.
pub open spec fn spec_full_uri(r: Repository) -> Seq<char> {
    match r.repository_type {
        RepositoryType::Rest => "rest:"@ + r.uri@,
    }
}

impl Repository {
    /// The full repository URI handed to the backup tool: the bare URI with
    /// its type prefix.
    pub fn full_uri(&self) -> (r: String)
        ensures
            r@ == spec_full_uri(*self),
    {
        match self.repository_type {
            RepositoryType::Rest => {
                let mut s = String::from_str("rest:");
                s.append(self.uri.as_str());
                s
            },
        }
    }
}

/// Username and password for a REST repository, each read from a secret.
#[derive(Debug, Clone, PartialEq, Eq)]
pub struct RestCredentials {
    pub username: SecretKeySelector,
    pub password: SecretKeySelector,
}

/// Compression mode of the repository.
#[derive(Debug, Clone, Copy, PartialEq, Eq, Structural)]
pub enum Compression {
    Off,
    Auto,
    Max,
}

impl Default for Compression {
    fn default() -> (r: Compression)
        ensures
            r == Compression::Auto,
    {
        Compression::Auto
    }
}

/// The fixed word each compression mode is written as.
pub open spec fn spec_compression_str(c: Compression) -> Seq<char> {
    match c {
        Compression::Off => "off"@,
        Compression::Auto => "auto"@,
        Compression::Max => "max"@,
    }
}

impl Compression {
    pub fn as_str(&self) -> (r: &str)
        ensures
            r@ == spec_compression_str(*self),
    {
        match self {
            Compression::Off => "off",
            Compression::Auto => "auto",
            Compression::Max => "max",
        }
    }
}

/// Snapshot retention policy.
#[derive(Debug, Clone, Copy, PartialEq, Eq, Structural)]
pub struct Retention {
    pub after_backup: bool,
    pub before_backup: bool,
    pub keep_last: Option<u32>,
    pub keep_hourly: Option<u32>,
    pub keep_daily: Option<u32>,
    pub keep_weekly: Option<u32>,
    pub keep_monthly: Option<u32>,
    pub keep_yearly: Option<u32>,
    pub prune: bool,
}

/// Filters applied to the files a backup run takes.
#[derive(Debug, Clone, PartialEq, Eq)]
pub struct BackupOptions {
    pub exclude: Option<Vec<String>>,
    pub exclude_caches: bool,
    pub exclude_if_present: Option<Vec<String>>,
    pub exclude_larger_than: Option<String>,
    pub iexclude: Option<Vec<String>>,
    pub tag: Option<Vec<String>>,
}

/// The restic side of a backup spec: repository, compression, pack size,
/// retention and filter options.
#[derive(Debug, Clone, PartialEq, Eq)]
pub struct ResticConfig {
    pub repository: Repository,
    pub compression: Compression,
    pub pack_size: Option<u64>,
    pub retention: Option<Retention>,
    pub backup: Option<BackupOptions>,
}

/// Execution-environment overrides for the container the backup runs in.
#[derive(Debug, Clone, PartialEq, Eq)]
pub struct ResticProfileConfig {
    /// Image to use; when unset, the default image is resolved from
    /// `version`.
    pub image: Option<String>,
    /// Image tag used with the default image when `image` is unset;
    /// `latest` when also unset.
    pub version: Option<String>,
    pub image_pull_policy: Option<String>,
    pub args: Option<Vec<String>>,
    pub command: Option<Vec<String>>,
    pub env: Option<Vec<EnvVar>>,
    pub env_from: Option<Vec<EnvFromSource>>,
    pub resources: Option<ResourceRequirements>,
    pub restart_policy: Option<String>,
    pub security_context: Option<SecurityContext>,
    pub affinity: Option<Affinity>,
    pub node_selector: Option<Vec<(String, String)>>,
    pub service_account_name: Option<String>,
}

impl ResticProfileConfig {
    /// Overrides with every field absent.
    pub fn empty() -> (r: ResticProfileConfig)
        ensures
            r == spec_empty_restic_profile_config(),
    {
        ResticProfileConfig {
            image: None,
            version: None,
            image_pull_policy: None,
            args: None,
            command: None,
            env: None,
            env_from: None,
            resources: None,
            restart_policy: None,
            security_context: None,
            affinity: None,
            node_selector: None,
            service_account_name: None,
        }
    }
}

/// The value `ResticProfileConfig::empty` returns.
pub open spec fn spec_empty_restic_profile_config() -> ResticProfileConfig {
    ResticProfileConfig {
        image: None,
        version: None,
        image_pull_policy: None,
        args: None,
        command: None,
        env: None,
        env_from: None,
        resources: None,
        restart_policy: None,
        security_context: None,
        affinity: None,
        node_selector: None,
        service_account_name: None,
    }
}

/// Extra volumes the user wants mounted into the backup container, and
/// backed up.
#[derive(Debug, Clone, PartialEq, Eq)]
pub struct VolumeBackup {
    pub mounts: Vec<VolumeMount>,
    pub volumes: Vec<Volume>,
}

/// The desired state a `Backup` declares.
#[derive(Debug, Clone, PartialEq, Eq)]
pub struct BackupSpec {
    /// Restic configuration.
    pub restic: ResticConfig,
    /// Execution-environment overrides.
    pub restic_profile: Option<ResticProfileConfig>,
    /// Extra volumes to mount and back up.
    pub volume: Option<VolumeBackup>,
}

/// Observed state of a `Backup`.
#[derive(Debug, Clone, PartialEq, Eq)]
pub struct BackupStatus {
    pub phase: BackupPhase,
    pub config_map: Option<String>,
    pub job: Option<String>,
}

/// The coarse lifecycle phase of a backup run.
#[derive(Debug, Clone, Copy, PartialEq, Eq, Structural)]
pub enum BackupPhase {
    Pending,
    Running,
    Completed,
}

impl Default for BackupPhase {
    fn default() -> (r: BackupPhase)
        ensures
            r == BackupPhase::Pending,
    {
        BackupPhase::Pending
    }
}

/// The desired state a `ScheduledBackup` declares: a cron schedule around
/// an embedded backup spec.
#[derive(Debug, Clone, PartialEq, Eq)]
pub struct ScheduledBackupSpec {
    /// The schedule, in cron format.
    pub schedule: String,
    /// The backup to run on that schedule.
    pub backup: BackupSpec,
    /// How concurrent executions of the job are treated.
    pub concurrency_policy: Option<String>,
    pub failed_jobs_history_limit: Option<i32>,
    pub starting_deadline_seconds: Option<i64>,
    pub successful_jobs_history_limit: Option<i32>,
    /// Suspends subsequent executions when set.
    pub suspend: Option<bool>,
    /// Time zone name the schedule is evaluated in.
    pub time_zone: Option<String>,
}

/// Observed state of a `ScheduledBackup`.
#[derive(Debug, Clone, PartialEq, Eq)]
pub struct ScheduledBackupStatus {
    pub config_map: Option<String>,
    pub cron_job: Option<String>,
    pub last_schedule_time: Option<Time>,
}

/// A `Backup` custom resource as observed from the cluster.
#[derive(Debug, Clone, PartialEq, Eq)]
pub struct Backup {
    pub metadata: ObjectMeta,
    pub spec: BackupSpec,
    pub status: Option<BackupStatus>,
}

/// A `ScheduledBackup` custom resource as observed from the cluster.
#[derive(Debug, Clone, PartialEq, Eq)]
pub struct ScheduledBackup {
    pub metadata: ObjectMeta,
    pub spec: ScheduledBackupSpec,
    pub status: Option<ScheduledBackupStatus>,
}

} // verus!
