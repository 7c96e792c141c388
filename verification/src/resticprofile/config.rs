//! The resticprofile configuration document.
//!
//! A configuration holds a format version, an optional global section and a
//! list of named profiles. Profiles are kept as a vector of name/profile
//! pairs in the order they are rendered; the composer only ever emits the
//! single profile named `default`.

use vstd::prelude::*;

verus! {

/// The name of the one profile the composer emits.
pub const DEFAULT_PROFILE: &'static str = "default";

/// A whole resticprofile configuration document.
#[derive(Debug, Clone, PartialEq, Eq)]
pub struct ResticProfileConfig {
    pub version: ResticProfileVersion,
    pub global: Option<ResticProfileGlobal>,
    /// Named profiles, rendered in the order given here.
    pub profiles: Vec<(String, ResticProfileProfile)>,
}

impl Default for ResticProfileConfig {
    /// The empty document: version 1, no global section, no profiles.
    fn default() -> (r: ResticProfileConfig)
        ensures
            r.version == ResticProfileVersion::V1,
            r.global is None,
            r.profiles@ == Seq::<(String, ResticProfileProfile)>::empty(),
    {
        ResticProfileConfig { version: ResticProfileVersion::V1, global: None, profiles: Vec::new() }
    }
}

/// The configuration format version.
#[derive(Debug, Clone, Copy, PartialEq, Eq, Structural)]
#[non_exhaustive]
pub enum ResticProfileVersion {
    V1,
}

impl Default for ResticProfileVersion {
    fn default() -> (r: ResticProfileVersion)
        ensures
            r == ResticProfileVersion::V1,
    {
        ResticProfileVersion::V1
    }
}

/// The `[global]` section.
#[derive(Debug, Clone, PartialEq, Eq)]
pub struct ResticProfileGlobal {
    /// Minimum available memory (in MB) required to run any commands.
    pub min_memory: Option<u64>,
    /// Time to wait before trying to get a lock on a restic repository.
    pub restic_lock_retry_after: Option<String>,
    /// The minimum age of an unused stale lock before it is removed.
    pub restic_stale_lock_age: Option<String>,
}

impl Default for ResticProfileGlobal {
    fn default() -> (r: ResticProfileGlobal)
        ensures
            r.min_memory is None,
            r.restic_lock_retry_after is None,
            r.restic_stale_lock_age is None,
    {
        ResticProfileGlobal {
            min_memory: None,
            restic_lock_retry_after: None,
            restic_stale_lock_age: None,
        }
    }
}

/// One profile: how restic reaches the repository, plus optional `backup`
/// and `retention` command sections.
#[derive(Debug, Clone, PartialEq, Eq)]
pub struct ResticProfileProfile {
    /// File to load root certificates from.
    pub cacert: Option<String>,
    /// The cache directory.
    pub cache_dir: Option<String>,
    /// Compression mode, one of `auto`, `off`, `max`.
    pub compression: Option<String>,
    /// HTTP user agent for outgoing requests.
    pub http_user_agent: Option<String>,
    /// Skip TLS certificate verification; omitted from the document when
    /// false.
    pub insecure_tls: bool,
    /// Download rate limit in KiB/s.
    pub limit_download: Option<u64>,
    /// Upload rate limit in KiB/s.
    pub limit_upload: Option<u64>,
    /// Do not use a local cache; omitted when false.
    pub no_cache: bool,
    /// Skip extra data verification before upload; omitted when false.
    pub no_extra_verify: bool,
    /// Target pack size in MiB.
    pub pack_size: Option<u64>,
    /// File the repository password is read from.
    pub password_file: Option<String>,
    /// The repository to back up to.
    pub repository: Option<String>,
    /// File holding the PEM-encoded TLS client certificate and key.
    pub tls_client_cert: Option<String>,
    /// Verbosity level.
    pub verbose: Option<u8>,
    /// The `backup` command section.
    pub backup: Option<ResticProfileProfileBackup>,
    /// The `retention` (forget) command section.
    pub retention: Option<ResticProfileProfileRetention>,
}

impl Default for ResticProfileProfile {
    fn default() -> (r: ResticProfileProfile)
        ensures
            r == spec_default_profile(),
    {
        ResticProfileProfile {
            cacert: None,
            cache_dir: None,
            compression: None,
            http_user_agent: None,
            insecure_tls: false,
            limit_download: None,
            limit_upload: None,
            no_cache: false,
            no_extra_verify: false,
            pack_size: None,
            password_file: None,
            repository: None,
            tls_client_cert: None,
            verbose: None,
            backup: None,
            retention: None,
        }
    }
}

/// The value `ResticProfileProfile::default` returns.
pub open spec fn spec_default_profile() -> ResticProfileProfile {
    ResticProfileProfile {
        cacert: None,
        cache_dir: None,
        compression: None,
        http_user_agent: None,
        insecure_tls: false,
        limit_download: None,
        limit_upload: None,
        no_cache: false,
        no_extra_verify: false,
        pack_size: None,
        password_file: None,
        repository: None,
        tls_client_cert: None,
        verbose: None,
        backup: None,
        retention: None,
    }
}

/// The `backup` command section of a profile.
#[derive(Debug, Clone, PartialEq, Eq)]
pub struct ResticProfileProfileBackup {
    /// Check the repository after the backup succeeded; omitted when false.
    pub check_after: bool,
    /// Check the repository before starting; omitted when false.
    pub check_before: bool,
    /// Do not fail the backup on unreadable files; omitted when false.
    pub no_error_on_warning: bool,
    /// The paths to back up; omitted when empty.
    pub source: Vec<String>,
    /// Exclude patterns; omitted when empty.
    pub exclude: Vec<String>,
    /// Exclude cache directories marked with a tag file; omitted when false.
    pub exclude_caches: bool,
    /// Exclude directories containing one of these files; omitted when
    /// empty.
    pub exclude_if_present: Vec<String>,
    /// Maximum size of files to back up.
    pub exclude_larger_than: Option<String>,
    /// Host name recorded on the snapshot.
    pub host: Option<String>,
    /// Case-insensitive exclude patterns; omitted when empty.
    pub iexclude: Vec<String>,
    /// Tags for the new snapshot; omitted when empty.
    pub tag: Vec<String>,
}

impl Default for ResticProfileProfileBackup {
    fn default() -> (r: ResticProfileProfileBackup)
        ensures
            !r.check_after,
            !r.check_before,
            !r.no_error_on_warning,
            r.source@ == Seq::<String>::empty(),
            r.exclude@ == Seq::<String>::empty(),
            !r.exclude_caches,
            r.exclude_if_present@ == Seq::<String>::empty(),
            r.exclude_larger_than is None,
            r.host is None,
            r.iexclude@ == Seq::<String>::empty(),
            r.tag@ == Seq::<String>::empty(),
    {
        ResticProfileProfileBackup {
            check_after: false,
            check_before: false,
            no_error_on_warning: false,
            source: Vec::new(),
            exclude: Vec::new(),
            exclude_caches: false,
            exclude_if_present: Vec::new(),
            exclude_larger_than: None,
            host: None,
            iexclude: Vec::new(),
            tag: Vec::new(),
        }
    }
}

/// The `retention` command section of a profile.
#[derive(Debug, Clone, Copy, PartialEq, Eq, Structural)]
pub struct ResticProfileProfileRetention {
    /// Apply retention after the backup succeeded; omitted when false.
    pub after_backup: bool,
    /// Apply retention before starting the backup; omitted when false.
    pub before_backup: bool,
    /// Restrict retention to this host's snapshots; always rendered.
    pub host: bool,
    pub keep_last: Option<u32>,
    pub keep_hourly: Option<u32>,
    pub keep_daily: Option<u32>,
    pub keep_weekly: Option<u32>,
    pub keep_monthly: Option<u32>,
    pub keep_yearly: Option<u32>,
    /// Run `prune` when snapshots were removed; omitted when false.
    pub prune: bool,
}

impl Default for ResticProfileProfileRetention {
    fn default() -> (r: ResticProfileProfileRetention)
        ensures
            r == spec_default_profile_retention(),
    {
        ResticProfileProfileRetention {
            after_backup: false,
            before_backup: false,
            host: false,
            keep_last: None,
            keep_hourly: None,
            keep_daily: None,
            keep_weekly: None,
            keep_monthly: None,
            keep_yearly: None,
            prune: false,
        }
    }
}

/// The value `ResticProfileProfileRetention::default` returns.
pub open spec fn spec_default_profile_retention() -> ResticProfileProfileRetention {
    ResticProfileProfileRetention {
        after_backup: false,
        before_backup: false,
        host: false,
        keep_last: None,
        keep_hourly: None,
        keep_daily: None,
        keep_weekly: None,
        keep_monthly: None,
        keep_yearly: None,
        prune: false,
    }
}

} // verus!
