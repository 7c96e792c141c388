//! The configuration artifact: a resticprofile document composed from a
//! backup spec and delivered to the cluster as a named config map.
//!
//! Composition is a pure function of the spec — identical specs yield the
//! same document, and `render` then yields byte-identical text — so the
//! artifact can be regenerated on every reconcile without drift.

use vstd::prelude::*;

use crate::crd::{spec_compression_str, spec_full_uri, BackupOptions, BackupSpec};
use crate::deploy::{dependent_meta, spec_dependent_meta, Labels, OwnerInfo};
use crate::k8s::{ConfigMap, VolumeMount};
use crate::resticprofile::config::{
    ResticProfileConfig, ResticProfileProfile, ResticProfileProfileBackup,
    ResticProfileProfileRetention, ResticProfileVersion, DEFAULT_PROFILE,
};
use crate::resticprofile::render::{
    render_config, spec_backup_body, spec_profile_body, spec_profile_section, spec_profiles,
    spec_render_config,
};

pub mod config;
pub mod render;

verus! {

/// The fixed path the execution template mounts the repository password
/// at; the profile's password-file entry points there.
pub const PASSWORD_FILE_PATH: &'static str = "/resticprofile/password.txt";

/// The password-file path as a character sequence.
pub open spec fn spec_password_file_path() -> Seq<char> {
    "/resticprofile/password.txt"@
}

/// The key the rendered document is stored under in the config map.
pub const PROFILES_KEY: &'static str = "profiles.toml";

/// The source paths of a backup: the mount paths of every extra
/// user-declared volume mount, in order.
pub open spec fn spec_extract_paths(b: BackupSpec) -> Seq<String> {
    match b.volume {
        Option::None => Seq::empty(),
        Option::Some(vb) => vb.mounts@.map_values(|m: VolumeMount| m.mount_path),
    }
}

/// Collects the backup source paths: the mount path of each extra
/// user-declared volume mount.
pub fn extract_paths(backup: &BackupSpec) -> (r: Vec<String>)
    ensures
        r@ == spec_extract_paths(*backup),
{
    match &backup.volume {
        Option::None => Vec::new(),
        Option::Some(vb) => {
            let mut paths: Vec<String> = Vec::new();
            let mut i: usize = 0;
            while i < vb.mounts.len()
                invariant
                    0 <= i <= vb.mounts@.len(),
                    paths@ == vb.mounts@.take(i as int).map_values(|m: VolumeMount| m.mount_path),
                decreases vb.mounts@.len() - i,
            {
                paths.push(vb.mounts[i].mount_path.clone());
                proof {
                    assert(vb.mounts@.take((i + 1) as int).map_values(
                        |m: VolumeMount| m.mount_path,
                    ) =~= vb.mounts@.take(i as int).map_values(|m: VolumeMount| m.mount_path).push(
                        vb.mounts@[i as int].mount_path,
                    ));
                }
                i = i + 1;
            }
            proof {
                assert(vb.mounts@.take(vb.mounts@.len() as int) =~= vb.mounts@);
            }
            paths
        },
    }
}

/// The list a section holds for an optional user list: the user's entries,
/// or empty when none were declared.
pub open spec fn spec_opt_list(o: Option<Vec<String>>) -> Seq<String> {
    match o {
        Option::None => Seq::empty(),
        Option::Some(v) => v@,
    }
}

/// What the `backup` command section derived from declared backup options
/// holds: the collected source paths, the filters copied field by field
/// with absent lists defaulting to empty, and the parent resource name as
/// the snapshot host label.
pub open spec fn spec_backup_section(
    nm: Seq<char>,
    b: BackupSpec,
    bo: BackupOptions,
    pb: ResticProfileProfileBackup,
) -> bool {
    &&& !pb.check_after
    &&& !pb.check_before
    &&& !pb.no_error_on_warning
    &&& pb.source@ == spec_extract_paths(b)
    &&& pb.exclude@ == spec_opt_list(bo.exclude)
    &&& pb.exclude_caches == bo.exclude_caches
    &&& pb.exclude_if_present@ == spec_opt_list(bo.exclude_if_present)
    &&& pb.exclude_larger_than == bo.exclude_larger_than
    &&& pb.host matches Option::Some(h) && h@ == nm
    &&& pb.iexclude@ == spec_opt_list(bo.iexclude)
    &&& pb.tag@ == spec_opt_list(bo.tag)
}

/// The `retention` command section derived from a declared retention
/// policy: the keep counts and flags copied through, with the host
/// restriction left off.
pub open spec fn spec_retention_section(
    rt: crate::crd::Retention,
) -> ResticProfileProfileRetention {
    ResticProfileProfileRetention {
        after_backup: rt.after_backup,
        before_backup: rt.before_backup,
        host: false,
        keep_last: rt.keep_last,
        keep_hourly: rt.keep_hourly,
        keep_daily: rt.keep_daily,
        keep_weekly: rt.keep_weekly,
        keep_monthly: rt.keep_monthly,
        keep_yearly: rt.keep_yearly,
        prune: rt.prune,
    }
}

/// What the one profile derived from a backup spec holds: the resolved
/// compression mode, the type-prefixed repository URI, the fixed
/// password-file path, and the optional command sections — present
/// exactly when the spec declares them.
pub open spec fn spec_profile(nm: Seq<char>, b: BackupSpec, p: ResticProfileProfile) -> bool {
    &&& p.cacert is None
    &&& p.cache_dir is None
    &&& p.compression matches Option::Some(cs) && cs@ == spec_compression_str(b.restic.compression)
    &&& p.http_user_agent is None
    &&& !p.insecure_tls
    &&& p.limit_download is None
    &&& p.limit_upload is None
    &&& !p.no_cache
    &&& !p.no_extra_verify
    &&& p.pack_size is None
    &&& p.password_file matches Option::Some(pf) && pf@ == spec_password_file_path()
    &&& p.repository matches Option::Some(r) && r@ == spec_full_uri(b.restic.repository)
    &&& p.tls_client_cert is None
    &&& p.verbose is None
    &&& match b.restic.backup {
        Option::None => p.backup is None,
        Option::Some(bo) => p.backup matches Option::Some(pb) && spec_backup_section(
            nm,
            b,
            bo,
            pb,
        ),
    }
    &&& match b.restic.retention {
        Option::None => p.retention is None,
        Option::Some(rt) => p.retention == Option::Some(spec_retention_section(rt)),
    }
}

/// What the whole document derived from a backup spec holds: exactly one
/// profile, named `default`, with no global section.
pub open spec fn spec_config(nm: Seq<char>, b: BackupSpec, c: ResticProfileConfig) -> bool {
    &&& c.version == ResticProfileVersion::V1
    &&& c.global is None
    &&& c.profiles@.len() == 1
    &&& c.profiles@[0].0@ == "default"@
    &&& spec_profile(nm, b, c.profiles@[0].1)
}

/// Composes the configuration document for one backup spec. `name` is the
/// parent resource's name; it becomes the snapshot host label.
pub fn create_config(name: String, backup: &BackupSpec) -> (c: ResticProfileConfig)
    ensures
        spec_config(name@, *backup, c),
{
    let paths = extract_paths(backup);

    let backup_conf: Option<ResticProfileProfileBackup> = match &backup.restic.backup {
        Option::None => None,
        Option::Some(bo) => Some(
            ResticProfileProfileBackup {
                check_after: false,
                check_before: false,
                no_error_on_warning: false,
                source: paths,
                exclude: match &bo.exclude {
                    Option::None => Vec::new(),
                    Option::Some(v) => v.clone(),
                },
                exclude_caches: bo.exclude_caches,
                exclude_if_present: match &bo.exclude_if_present {
                    Option::None => Vec::new(),
                    Option::Some(v) => v.clone(),
                },
                exclude_larger_than: bo.exclude_larger_than.clone(),
                host: Some(name),
                iexclude: match &bo.iexclude {
                    Option::None => Vec::new(),
                    Option::Some(v) => v.clone(),
                },
                tag: match &bo.tag {
                    Option::None => Vec::new(),
                    Option::Some(v) => v.clone(),
                },
            },
        ),
    };

    let retention: Option<ResticProfileProfileRetention> = match &backup.restic.retention {
        Option::None => None,
        Option::Some(rt) => Some(
            ResticProfileProfileRetention {
                after_backup: rt.after_backup,
                before_backup: rt.before_backup,
                host: false,
                keep_last: rt.keep_last,
                keep_hourly: rt.keep_hourly,
                keep_daily: rt.keep_daily,
                keep_weekly: rt.keep_weekly,
                keep_monthly: rt.keep_monthly,
                keep_yearly: rt.keep_yearly,
                prune: rt.prune,
            },
        ),
    };

    let profile = ResticProfileProfile {
        cacert: None,
        cache_dir: None,
        compression: Some(String::from_str(backup.restic.compression.as_str())),
        http_user_agent: None,
        insecure_tls: false,
        limit_download: None,
        limit_upload: None,
        no_cache: false,
        no_extra_verify: false,
        pack_size: None,
        password_file: Some(String::from_str(PASSWORD_FILE_PATH)),
        repository: Some(backup.restic.repository.full_uri()),
        tls_client_cert: None,
        verbose: None,
        backup: backup_conf,
        retention,
    };

    let mut profiles: Vec<(String, ResticProfileProfile)> = Vec::new();
    profiles.push((String::from_str(DEFAULT_PROFILE), profile));
    ResticProfileConfig { version: ResticProfileVersion::V1, global: None, profiles }
}

/// The configuration artifact of one custom resource: the dependent's
/// deterministic name, its namespace, and the composed document.
#[derive(Debug, Clone, PartialEq, Eq)]
pub struct ResticProfile {
    pub name: String,
    pub ns: String,
    pub config: ResticProfileConfig,
}

impl ResticProfile {
    /// Composes the artifact for a parent resource named `name`: the
    /// dependent is named `<name>-profile` and holds the document derived
    /// from the backup spec.
    pub fn new(ns: String, name: String, backup: &BackupSpec) -> (r: ResticProfile)
        ensures
            r.ns == ns,
            r.name@ == name@ + "-profile"@,
            spec_config(name@, *backup, r.config),
    {
        let config = create_config(name.clone(), backup);
        let mut dep_name = name;
        dep_name.append("-profile");
        ResticProfile { name: dep_name, ns, config }
    }

    /// The dependent's name.
    pub fn name(&self) -> (r: &str)
        ensures
            r@ == self.name@,
    {
        self.name.as_str()
    }

    /// The config-map manifest this artifact is submitted as: dependent
    /// metadata with owner linkage and labels, and the rendered document
    /// under the fixed key.
    pub fn to_config_map(&self, owner: &OwnerInfo, labels: &Labels) -> (r: ConfigMap)
        ensures
            spec_dependent_meta(self.name, self.ns, *labels, *owner, r.metadata),
            r.data matches Option::Some(d) && d@.len() == 1 && d@[0].0@ == "profiles.toml"@
                && d@[0].1@ == spec_render_config(self.config),
    {
        let text = render_config(&self.config);
        let mut data: Vec<(String, String)> = Vec::new();
        data.push((String::from_str(PROFILES_KEY), text));
        let metadata = dependent_meta(self.name.clone(), self.ns.clone(), labels, owner);
        ConfigMap { metadata, data: Some(data) }
    }
}

/// Composition is referentially transparent: any two documents composed
/// for the same parent name and backup spec render to identical text, so
/// regenerating the artifact on every reconcile can never change it while
/// the spec stands still.
pub proof fn lemma_render_deterministic(
    nm: Seq<char>,
    b: BackupSpec,
    c1: ResticProfileConfig,
    c2: ResticProfileConfig,
)
    requires
        spec_config(nm, b, c1),
        spec_config(nm, b, c2),
    ensures
        spec_render_config(c1) == spec_render_config(c2),
{
    let p1 = c1.profiles@[0].1;
    let p2 = c2.profiles@[0].1;
    assert(spec_profile_body(p1) == spec_profile_body(p2));
    match b.restic.backup {
        Option::None => {},
        Option::Some(bo) => {
            let pb1 = p1.backup->0;
            let pb2 = p2.backup->0;
            assert(pb1.host->0@ == pb2.host->0@);
            assert(spec_backup_body(pb1) == spec_backup_body(pb2));
        },
    }
    assert(spec_profile_section(c1.profiles@[0].0@, p1) == spec_profile_section(
        c2.profiles@[0].0@,
        p2,
    ));
    assert(c1.profiles@.drop_last().len() == 0);
    assert(c1.profiles@.drop_last() =~= Seq::<(String, ResticProfileProfile)>::empty());
    assert(c2.profiles@.drop_last() =~= Seq::<(String, ResticProfileProfile)>::empty());
    assert(c1.profiles@.last() == c1.profiles@[0]);
    assert(c2.profiles@.last() == c2.profiles@[0]);
    assert(spec_profiles(c1.profiles@) == spec_profiles(c2.profiles@));
}

} // verus!
