//! The execution template: the container specification a backup runs
//! with, composed from a backup spec and the name of its configuration
//! artifact.
//!
//! The composition resolves the image, appends the synthesized credential
//! environment variables, and assembles the volume set: the two fixed
//! mounts (configuration document and repository password) followed by
//! every user-declared extra, verbatim.

use vstd::prelude::*;

use crate::crd::{BackupSpec, ResticProfileConfig};
use crate::k8s::{
    clone_env_from, clone_env_vars, clone_mounts, clone_opt_pairs_vec, clone_opt_string_vec,
    clone_volumes, opt_pairs_match, opt_strings_match, Affinity, ConfigMapVolumeSource, Container,
    EnvFromSource, EnvVar, EnvVarSource, JobSpec, PodSpec, PodTemplateSpec, ResourceRequirements,
    SecretVolumeSource, SecurityContext, Volume, VolumeMount,
};
use crate::resticprofile::{spec_password_file_path, PASSWORD_FILE_PATH};

verus! {

/// The image used when the spec names none.
pub const DEFAULT_RESTIC_IMAGE: &'static str = "creativeprojects/resticprofile";

/// The execution-environment overrides in effect: the declared ones, or
/// all-absent when the spec declares none.
pub open spec fn spec_effective_overrides(b: BackupSpec) -> ResticProfileConfig {
    match b.restic_profile {
        Option::None => crate::crd::spec_empty_restic_profile_config(),
        Option::Some(c) => c,
    }
}

/// The resolved container image: the explicit image verbatim when set;
/// else the default repository tagged with the explicit version; else the
/// default repository tagged `latest`.
pub open spec fn spec_image(c: ResticProfileConfig, img: String) -> bool {
    match c.image {
        Option::Some(explicit) => img == explicit,
        Option::None => match c.version {
            Option::Some(v) => img@ == "creativeprojects/resticprofile"@ + ":"@ + v@,
            Option::None => img@ == "creativeprojects/resticprofile"@ + ":"@ + "latest"@,
        },
    }
}

/// The user-declared environment variables, or none.
pub open spec fn spec_user_env(c: ResticProfileConfig) -> Seq<EnvVar> {
    match c.env {
        Option::None => Seq::empty(),
        Option::Some(v) => v@,
    }
}

/// How many environment variables the composer synthesizes: the two
/// REST-credential variables when credentials are configured, else none.
pub open spec fn spec_cred_env_count(b: BackupSpec) -> nat {
    if b.restic.repository.rest_credentials is Some {
        2
    } else {
        0
    }
}

/// The composed environment: every user-declared variable first, in
/// order and untouched, then — only when REST credentials are present —
/// the two synthesized variables referencing the credential secrets.
pub open spec fn spec_env(b: BackupSpec, c: ResticProfileConfig, env: Seq<EnvVar>) -> bool {
    &&& env.len() == spec_user_env(c).len() + spec_cred_env_count(b)
    &&& forall|i: int| 0 <= i < spec_user_env(c).len() ==> env[i] == spec_user_env(c)[i]
    &&& match b.restic.repository.rest_credentials {
        Option::None => true,
        Option::Some(rc) => {
            let n = spec_user_env(c).len() as int;
            &&& env[n].name@ == "RESTIC_REST_USERNAME"@
            &&& env[n].value is None
            &&& env[n].value_from matches Option::Some(vs) && vs.secret_key_ref == Option::Some(
                rc.username,
            ) && vs.other is None
            &&& env[n + 1].name@ == "RESTIC_REST_PASSWORD"@
            &&& env[n + 1].value is None
            &&& env[n + 1].value_from matches Option::Some(vs) && vs.secret_key_ref
                == Option::Some(rc.password) && vs.other is None
        },
    }
}

/// The user-declared extra volume mounts, or none.
pub open spec fn spec_extra_mounts(b: BackupSpec) -> Seq<VolumeMount> {
    match b.volume {
        Option::None => Seq::empty(),
        Option::Some(vb) => vb.mounts@,
    }
}

/// The user-declared extra volumes, or none.
pub open spec fn spec_extra_volumes(b: BackupSpec) -> Seq<Volume> {
    match b.volume {
        Option::None => Seq::empty(),
        Option::Some(vb) => vb.volumes@,
    }
}

/// The composed mounts: the configuration document at its fixed path, the
/// repository password at its fixed path, then every extra verbatim.
pub open spec fn spec_mounts(b: BackupSpec, mounts: Seq<VolumeMount>) -> bool {
    &&& mounts.len() == 2 + spec_extra_mounts(b).len()
    &&& mounts[0].name@ == "profile"@
    &&& mounts[0].mount_path@ == "/resticprofile/profiles.toml"@
    &&& mounts[0].sub_path matches Option::Some(sp) && sp@ == "profiles.toml"@
    &&& mounts[0].read_only is None
    &&& mounts[0].other is None
    &&& mounts[1].name@ == "restic-password"@
    &&& mounts[1].mount_path@ == spec_password_file_path()
    &&& mounts[1].sub_path == Option::Some(b.restic.repository.password.key)
    &&& mounts[1].read_only is None
    &&& mounts[1].other is None
    &&& forall|i: int|
        0 <= i < spec_extra_mounts(b).len() ==> mounts[2 + i] == spec_extra_mounts(b)[i]
}

/// The composed volumes: the config map behind the configuration mount,
/// the password secret behind the password mount, then every extra
/// verbatim.
pub open spec fn spec_volumes(b: BackupSpec, config_name: Seq<char>, vols: Seq<Volume>) -> bool {
    &&& vols.len() == 2 + spec_extra_volumes(b).len()
    &&& vols[0].name@ == "profile"@
    &&& vols[0].config_map matches Option::Some(cm) && cm.name@ == config_name
    &&& vols[0].secret is None
    &&& vols[0].other is None
    &&& vols[1].name@ == "restic-password"@
    &&& vols[1].config_map is None
    &&& vols[1].secret matches Option::Some(s) && s.secret_name == Option::Some(
        b.restic.repository.password.name,
    )
    &&& vols[1].other is None
    &&& forall|i: int|
        0 <= i < spec_extra_volumes(b).len() ==> vols[2 + i] == spec_extra_volumes(b)[i]
}

/// Resolves the container image from the overrides.
pub fn get_image(cfg: &ResticProfileConfig) -> (r: String)
    ensures
        spec_image(*cfg, r),
{
    match &cfg.image {
        Option::Some(img) => img.clone(),
        Option::None => {
            let mut s = String::from_str(DEFAULT_RESTIC_IMAGE);
            s.append(":");
            match &cfg.version {
                Option::Some(v) => s.append(v.as_str()),
                Option::None => s.append("latest"),
            }
            s
        },
    }
}

/// Composes the environment: the user-declared variables, then the two
/// synthesized credential variables when REST credentials are present.
/// Synthesized variables are appended, never replacing user-declared
/// ones of the same name.
pub fn fill_env(backup: &BackupSpec, rpcfg: &ResticProfileConfig) -> (r: Vec<EnvVar>)
    ensures
        spec_env(*backup, *rpcfg, r@),
{
    let mut env: Vec<EnvVar> = match &rpcfg.env {
        Option::None => Vec::new(),
        Option::Some(v) => clone_env_vars(v),
    };

    match &backup.restic.repository.rest_credentials {
        Option::None => {},
        Option::Some(rc) => {
            env.push(
                EnvVar {
                    name: String::from_str("RESTIC_REST_USERNAME"),
                    value: None,
                    value_from: Some(
                        EnvVarSource { secret_key_ref: Some(rc.username.clone()), other: None },
                    ),
                },
            );
            env.push(
                EnvVar {
                    name: String::from_str("RESTIC_REST_PASSWORD"),
                    value: None,
                    value_from: Some(
                        EnvVarSource { secret_key_ref: Some(rc.password.clone()), other: None },
                    ),
                },
            );
        },
    }

    env
}

/// Assembles the mounts and volumes: the fixed configuration and password
/// pair first, then every user-declared extra, verbatim and in order.
pub fn fill_volume_mounts(backup: &BackupSpec, config_name: String) -> (r: (
    Vec<VolumeMount>,
    Vec<Volume>,
))
    ensures
        spec_mounts(*backup, r.0@),
        spec_volumes(*backup, config_name@, r.1@),
{
    let mut mounts: Vec<VolumeMount> = Vec::new();
    let mut volumes: Vec<Volume> = Vec::new();

    mounts.push(
        VolumeMount {
            name: String::from_str("profile"),
            mount_path: String::from_str("/resticprofile/profiles.toml"),
            sub_path: Some(String::from_str("profiles.toml")),
            read_only: None,
            other: None,
        },
    );
    volumes.push(
        Volume {
            name: String::from_str("profile"),
            config_map: Some(ConfigMapVolumeSource { name: config_name }),
            secret: None,
            other: None,
        },
    );

    mounts.push(
        VolumeMount {
            name: String::from_str("restic-password"),
            mount_path: String::from_str(PASSWORD_FILE_PATH),
            sub_path: Some(backup.restic.repository.password.key.clone()),
            read_only: None,
            other: None,
        },
    );
    volumes.push(
        Volume {
            name: String::from_str("restic-password"),
            config_map: None,
            secret: Some(
                SecretVolumeSource {
                    secret_name: Some(backup.restic.repository.password.name.clone()),
                },
            ),
            other: None,
        },
    );

    match &backup.volume {
        Option::None => {},
        Option::Some(vb) => {
            let mut extra_mounts = clone_mounts(&vb.mounts);
            let mut extra_volumes = clone_volumes(&vb.volumes);
            mounts.append(&mut extra_mounts);
            volumes.append(&mut extra_volumes);
        },
    }

    (mounts, volumes)
}

/// The execution template of one backup: everything the container runs
/// with.
#[derive(Debug, Clone, PartialEq, Eq)]
pub struct BackupJobSpec {
    pub image: String,
    pub image_pull_policy: Option<String>,
    pub args: Option<Vec<String>>,
    pub command: Option<Vec<String>>,
    pub env: Vec<EnvVar>,
    pub env_from: Vec<EnvFromSource>,
    pub resources: Option<ResourceRequirements>,
    pub security_context: Option<SecurityContext>,
    pub affinity: Option<Affinity>,
    pub node_selector: Option<Vec<(String, String)>>,
    pub service_account_name: Option<String>,
    pub volume_mounts: Vec<VolumeMount>,
    pub volumes: Vec<Volume>,
}

/// The environment sources in effect, or none.
pub open spec fn spec_env_from(c: ResticProfileConfig) -> Seq<EnvFromSource> {
    match c.env_from {
        Option::None => Seq::empty(),
        Option::Some(v) => v@,
    }
}

/// What a composed execution template holds, relative to the backup spec
/// and the configuration artifact's name.
pub open spec fn spec_job_spec(b: BackupSpec, config_name: Seq<char>, s: BackupJobSpec) -> bool {
    let c = spec_effective_overrides(b);
    &&& spec_image(c, s.image)
    &&& s.image_pull_policy == c.image_pull_policy
    &&& opt_strings_match(c.args, s.args)
    &&& opt_strings_match(c.command, s.command)
    &&& spec_env(b, c, s.env@)
    &&& s.env_from@ == spec_env_from(c)
    &&& s.resources == c.resources
    &&& s.security_context == c.security_context
    &&& s.affinity == c.affinity
    &&& opt_pairs_match(c.node_selector, s.node_selector)
    &&& s.service_account_name == c.service_account_name
    &&& spec_mounts(b, s.volume_mounts@)
    &&& spec_volumes(b, config_name, s.volumes@)
}

impl BackupJobSpec {
    /// Composes the execution template from a backup spec and the name of
    /// its configuration artifact.
    pub fn new(backup: &BackupSpec, config_name: String) -> (r: BackupJobSpec)
        ensures
            spec_job_spec(*backup, config_name@, r),
    {
        let (volume_mounts, volumes) = fill_volume_mounts(backup, config_name);
        match &backup.restic_profile {
            Option::None => {
                let empty_cfg = ResticProfileConfig::empty();
                let image = get_image(&empty_cfg);
                let env = fill_env(backup, &empty_cfg);
                BackupJobSpec {
                    image,
                    image_pull_policy: None,
                    args: None,
                    command: None,
                    env,
                    env_from: Vec::new(),
                    resources: None,
                    security_context: None,
                    affinity: None,
                    node_selector: None,
                    service_account_name: None,
                    volume_mounts,
                    volumes,
                }
            },
            Option::Some(c) => {
                let image = get_image(c);
                let env = fill_env(backup, c);
                BackupJobSpec {
                    image,
                    image_pull_policy: match &c.image_pull_policy {
                        Option::None => None,
                        Option::Some(s) => Some(s.clone()),
                    },
                    args: clone_opt_string_vec(&c.args),
                    command: clone_opt_string_vec(&c.command),
                    env,
                    env_from: match &c.env_from {
                        Option::None => Vec::new(),
                        Option::Some(v) => clone_env_from(v),
                    },
                    resources: match &c.resources {
                        Option::None => None,
                        Option::Some(v) => Some(v.clone()),
                    },
                    security_context: match &c.security_context {
                        Option::None => None,
                        Option::Some(v) => Some(v.clone()),
                    },
                    affinity: match &c.affinity {
                        Option::None => None,
                        Option::Some(v) => Some(v.clone()),
                    },
                    node_selector: clone_opt_pairs_vec(&c.node_selector),
                    service_account_name: match &c.service_account_name {
                        Option::None => None,
                        Option::Some(s) => Some(s.clone()),
                    },
                    volume_mounts,
                    volumes,
                }
            },
        }
    }

    /// The one-shot job specification this template is submitted as: one
    /// container named `restic-backup`, restart on failure, not
    /// suspended, with the composed environment and volume set.
    pub fn to_job_spec(&self) -> (r: JobSpec)
        ensures
            spec_job_manifest(*self, r),
    {
        JobSpec {
            suspend: Some(false),
            template: PodTemplateSpec {
                metadata: None,
                spec: Some(
                    PodSpec {
                        affinity: match &self.affinity {
                            Option::None => None,
                            Option::Some(v) => Some(v.clone()),
                        },
                        containers: {
                            let mut cs: Vec<Container> = Vec::new();
                            cs.push(
                                Container {
                                    name: String::from_str("restic-backup"),
                                    image: Some(self.image.clone()),
                                    image_pull_policy: match &self.image_pull_policy {
                                        Option::None => None,
                                        Option::Some(s) => Some(s.clone()),
                                    },
                                    args: clone_opt_string_vec(&self.args),
                                    command: clone_opt_string_vec(&self.command),
                                    env: Some(clone_env_vars(&self.env)),
                                    env_from: Some(clone_env_from(&self.env_from)),
                                    resources: match &self.resources {
                                        Option::None => None,
                                        Option::Some(v) => Some(v.clone()),
                                    },
                                    security_context: match &self.security_context {
                                        Option::None => None,
                                        Option::Some(v) => Some(v.clone()),
                                    },
                                    volume_mounts: Some(clone_mounts(&self.volume_mounts)),
                                },
                            );
                            cs
                        },
                        restart_policy: Some(String::from_str("OnFailure")),
                        node_selector: clone_opt_pairs_vec(&self.node_selector),
                        service_account_name: match &self.service_account_name {
                            Option::None => None,
                            Option::Some(s) => Some(s.clone()),
                        },
                        volumes: Some(clone_volumes(&self.volumes)),
                    },
                ),
            },
        }
    }
}

/// What the submitted job specification holds, relative to the composed
/// execution template.
pub open spec fn spec_job_manifest(v: BackupJobSpec, js: JobSpec) -> bool {
    &&& js.suspend == Option::Some(false)
    &&& js.template.metadata is None
    &&& js.template.spec matches Option::Some(ps) && {
        &&& ps.affinity == v.affinity
        &&& ps.containers@.len() == 1
        &&& {
            let c = ps.containers@[0];
            &&& c.name@ == "restic-backup"@
            &&& c.image == Option::Some(v.image)
            &&& c.image_pull_policy == v.image_pull_policy
            &&& opt_strings_match(v.args, c.args)
            &&& opt_strings_match(v.command, c.command)
            &&& c.env matches Option::Some(e) && e@ == v.env@
            &&& c.env_from matches Option::Some(ef) && ef@ == v.env_from@
            &&& c.resources == v.resources
            &&& c.security_context == v.security_context
            &&& c.volume_mounts matches Option::Some(m) && m@ == v.volume_mounts@
        }
        &&& ps.restart_policy matches Option::Some(rp) && rp@ == "OnFailure"@
        &&& opt_pairs_match(v.node_selector, ps.node_selector)
        &&& ps.service_account_name == v.service_account_name
        &&& ps.volumes matches Option::Some(vo) && vo@ == v.volumes@
    }
}

} // verus!
