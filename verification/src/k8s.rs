//! Plain-value models of the Kubernetes API shapes this operator composes.
//!
//! The cluster client works on its own API types; the library instead holds
//! each manifest as a struct of plain values (strings, integers, options,
//! vectors), so that the composition logic can be specified and verified.
//! The process boundary converts between these models and the client's
//! types, field for field. String-keyed maps (labels, node selectors,
//! config-map data) are carried as vectors of key/value pairs in the order
//! the library emits them.

use vstd::prelude::*;

verus! {

/// Selects one key of one named secret.
#[derive(Debug, PartialEq, Eq)]
pub struct SecretKeySelector {
    pub name: String,
    pub key: String,
    pub optional: Option<bool>,
}

/// The source of an environment variable's value. A user-declared source
/// other than a secret key is carried in `other`, unread, and decoded
/// again at the process boundary.
#[derive(Debug, PartialEq, Eq)]
pub struct EnvVarSource {
    pub secret_key_ref: Option<SecretKeySelector>,
    pub other: Option<String>,
}

/// One environment variable of a container.
#[derive(Debug, PartialEq, Eq)]
pub struct EnvVar {
    pub name: String,
    pub value: Option<String>,
    pub value_from: Option<EnvVarSource>,
}

/// A source that populates a container's environment wholesale; carried
/// through the composition unchanged, encoded at the process boundary.
#[derive(Debug, PartialEq, Eq)]
pub struct EnvFromSource {
    pub encoded: String,
}

/// A mount of a named volume into a container. A user-declared extra
/// mount carries its complete original form in `other`, unread, so the
/// process boundary can restore every field.
#[derive(Debug, PartialEq, Eq)]
pub struct VolumeMount {
    pub name: String,
    pub mount_path: String,
    pub sub_path: Option<String>,
    pub read_only: Option<bool>,
    pub other: Option<String>,
}

/// A volume backed by a config map.
#[derive(Debug, PartialEq, Eq)]
pub struct ConfigMapVolumeSource {
    pub name: String,
}

/// A volume backed by a secret.
#[derive(Debug, PartialEq, Eq)]
pub struct SecretVolumeSource {
    pub secret_name: Option<String>,
}

/// One volume of a pod. User-declared extra volumes may be backed by
/// anything the cluster offers; such a volume is carried in `other`,
/// unread, and decoded again at the process boundary.
#[derive(Debug, PartialEq, Eq)]
pub struct Volume {
    pub name: String,
    pub config_map: Option<ConfigMapVolumeSource>,
    pub secret: Option<SecretVolumeSource>,
    pub other: Option<String>,
}

/// Compute-resource requirements of a container; passed through unchanged,
/// never read by the library. The boundary encodes the cluster value here
/// and decodes it on submission.
#[derive(Debug, PartialEq, Eq)]
pub struct ResourceRequirements {
    pub encoded: String,
}

/// Container security options; passed through unchanged, never read.
#[derive(Debug, PartialEq, Eq)]
pub struct SecurityContext {
    pub encoded: String,
}

/// Pod scheduling constraints; passed through unchanged, never read.
#[derive(Debug, PartialEq, Eq)]
pub struct Affinity {
    pub encoded: String,
}

/// A timestamp; the library only ever tests its presence.
#[derive(Debug, Clone, PartialEq, Eq)]
pub struct Time {
    pub stamp: String,
}

/// A back-link from a dependent resource to its owner, enabling cascade
/// deletion by the cluster's garbage collector.
#[derive(Debug, Clone, PartialEq, Eq)]
pub struct OwnerReference {
    pub api_version: String,
    pub kind: String,
    pub name: String,
    pub uid: String,
    pub controller: Option<bool>,
    pub block_owner_deletion: Option<bool>,
}

/// The metadata common to every Kubernetes object.
#[derive(Debug, Clone, PartialEq, Eq)]
pub struct ObjectMeta {
    pub name: Option<String>,
    pub namespace: Option<String>,
    pub uid: Option<String>,
    pub labels: Option<Vec<(String, String)>>,
    pub owner_references: Option<Vec<OwnerReference>>,
    pub finalizers: Option<Vec<String>>,
    pub deletion_timestamp: Option<Time>,
}

/// The object's name, or the empty string when it has none.
pub open spec fn spec_name_any(m: ObjectMeta) -> Seq<char> {
    match m.name {
        Option::None => Seq::empty(),
        Option::Some(n) => n@,
    }
}

impl ObjectMeta {
    /// The object's name, or the empty string when it has none.
    pub fn name_any(&self) -> (r: String)
        ensures
            r@ == spec_name_any(*self),
    {
        match &self.name {
            Option::None => String::new(),
            Option::Some(n) => n.clone(),
        }
    }
}

/// A config map: named key/value data.
#[derive(Debug, Clone, PartialEq, Eq)]
pub struct ConfigMap {
    pub metadata: ObjectMeta,
    pub data: Option<Vec<(String, String)>>,
}

/// One container of a pod.
#[derive(Debug, Clone, PartialEq, Eq)]
pub struct Container {
    pub name: String,
    pub image: Option<String>,
    pub image_pull_policy: Option<String>,
    pub args: Option<Vec<String>>,
    pub command: Option<Vec<String>>,
    pub env: Option<Vec<EnvVar>>,
    pub env_from: Option<Vec<EnvFromSource>>,
    pub resources: Option<ResourceRequirements>,
    pub security_context: Option<SecurityContext>,
    pub volume_mounts: Option<Vec<VolumeMount>>,
}

/// The specification of a pod.
#[derive(Debug, Clone, PartialEq, Eq)]
pub struct PodSpec {
    pub affinity: Option<Affinity>,
    pub containers: Vec<Container>,
    pub restart_policy: Option<String>,
    pub node_selector: Option<Vec<(String, String)>>,
    pub service_account_name: Option<String>,
    pub volumes: Option<Vec<Volume>>,
}

/// A pod template: metadata plus pod specification.
#[derive(Debug, Clone, PartialEq, Eq)]
pub struct PodTemplateSpec {
    pub metadata: Option<ObjectMeta>,
    pub spec: Option<PodSpec>,
}

/// The specification of a one-shot job.
#[derive(Debug, Clone, PartialEq, Eq)]
pub struct JobSpec {
    pub suspend: Option<bool>,
    pub template: PodTemplateSpec,
}

/// A one-shot job manifest.
#[derive(Debug, Clone, PartialEq, Eq)]
pub struct Job {
    pub metadata: ObjectMeta,
    pub spec: Option<JobSpec>,
}

/// The job template embedded in a cron job.
#[derive(Debug, Clone, PartialEq, Eq)]
pub struct JobTemplateSpec {
    pub metadata: Option<ObjectMeta>,
    pub spec: Option<JobSpec>,
}

/// The specification of a recurring (cron) job.
#[derive(Debug, Clone, PartialEq, Eq)]
pub struct CronJobSpec {
    pub concurrency_policy: Option<String>,
    pub failed_jobs_history_limit: Option<i32>,
    pub job_template: JobTemplateSpec,
    pub schedule: String,
    pub starting_deadline_seconds: Option<i64>,
    pub successful_jobs_history_limit: Option<i32>,
    pub suspend: Option<bool>,
    pub time_zone: Option<String>,
}

/// A recurring job manifest.
#[derive(Debug, Clone, PartialEq, Eq)]
pub struct CronJob {
    pub metadata: ObjectMeta,
    pub spec: Option<CronJobSpec>,
}

/// Hand-written clones: each returns a value equal to the original, so
/// that verified code copying these manifests keeps their contents.
impl Clone for SecretKeySelector {
    fn clone(&self) -> (res: Self)
        ensures
            res == *self,
    {
        SecretKeySelector { name: self.name.clone(), key: self.key.clone(), optional: self.optional }
    }
}

impl Clone for EnvVarSource {
    fn clone(&self) -> (res: Self)
        ensures
            res == *self,
    {
        EnvVarSource {
            secret_key_ref: self.secret_key_ref.clone(),
            other: self.other.clone(),
        }
    }
}

impl Clone for EnvVar {
    fn clone(&self) -> (res: Self)
        ensures
            res == *self,
    {
        EnvVar {
            name: self.name.clone(),
            value: self.value.clone(),
            value_from: self.value_from.clone(),
        }
    }
}

impl Clone for EnvFromSource {
    fn clone(&self) -> (res: Self)
        ensures
            res == *self,
    {
        EnvFromSource { encoded: self.encoded.clone() }
    }
}

impl Clone for VolumeMount {
    fn clone(&self) -> (res: Self)
        ensures
            res == *self,
    {
        VolumeMount {
            name: self.name.clone(),
            mount_path: self.mount_path.clone(),
            sub_path: self.sub_path.clone(),
            read_only: self.read_only,
            other: self.other.clone(),
        }
    }
}

impl Clone for ConfigMapVolumeSource {
    fn clone(&self) -> (res: Self)
        ensures
            res == *self,
    {
        ConfigMapVolumeSource { name: self.name.clone() }
    }
}

impl Clone for SecretVolumeSource {
    fn clone(&self) -> (res: Self)
        ensures
            res == *self,
    {
        SecretVolumeSource { secret_name: self.secret_name.clone() }
    }
}

impl Clone for Volume {
    fn clone(&self) -> (res: Self)
        ensures
            res == *self,
    {
        Volume {
            name: self.name.clone(),
            config_map: self.config_map.clone(),
            secret: self.secret.clone(),
            other: self.other.clone(),
        }
    }
}

impl Clone for ResourceRequirements {
    fn clone(&self) -> (res: Self)
        ensures
            res == *self,
    {
        ResourceRequirements { encoded: self.encoded.clone() }
    }
}

impl Clone for SecurityContext {
    fn clone(&self) -> (res: Self)
        ensures
            res == *self,
    {
        SecurityContext { encoded: self.encoded.clone() }
    }
}

impl Clone for Affinity {
    fn clone(&self) -> (res: Self)
        ensures
            res == *self,
    {
        Affinity { encoded: self.encoded.clone() }
    }
}

/// Whether two optional string lists hold the same entries.
pub open spec fn opt_strings_match(a: Option<Vec<String>>, b: Option<Vec<String>>) -> bool {
    match a {
        Option::None => b is None,
        Option::Some(v) => b matches Option::Some(w) && w@ == v@,
    }
}

/// Whether two optional key/value-pair lists hold the same entries.
pub open spec fn opt_pairs_match(
    a: Option<Vec<(String, String)>>,
    b: Option<Vec<(String, String)>>,
) -> bool {
    match a {
        Option::None => b is None,
        Option::Some(v) => b matches Option::Some(w) && w@ == v@,
    }
}

/// Copies a list of strings, entry for entry.
pub fn clone_string_vec(v: &Vec<String>) -> (r: Vec<String>)
    ensures
        r@ == v@,
{
    let mut r: Vec<String> = Vec::new();
    let mut i: usize = 0;
    while i < v.len()
        invariant
            0 <= i <= v@.len(),
            r@ == v@.take(i as int),
        decreases v@.len() - i,
    {
        r.push(v[i].clone());
        proof {
            assert(v@.take((i + 1) as int) =~= v@.take(i as int).push(v@[i as int]));
        }
        i = i + 1;
    }
    proof {
        assert(v@.take(v@.len() as int) =~= v@);
    }
    r
}

/// Copies an optional list of strings.
pub fn clone_opt_string_vec(o: &Option<Vec<String>>) -> (r: Option<Vec<String>>)
    ensures
        opt_strings_match(*o, r),
{
    match o {
        Option::None => None,
        Option::Some(v) => Some(clone_string_vec(v)),
    }
}

/// Copies a list of key/value pairs, entry for entry.
pub fn clone_pairs_vec(v: &Vec<(String, String)>) -> (r: Vec<(String, String)>)
    ensures
        r@ == v@,
{
    let mut r: Vec<(String, String)> = Vec::new();
    let mut i: usize = 0;
    while i < v.len()
        invariant
            0 <= i <= v@.len(),
            r@ == v@.take(i as int),
        decreases v@.len() - i,
    {
        let pair = &v[i];
        r.push((pair.0.clone(), pair.1.clone()));
        proof {
            assert(v@.take((i + 1) as int) =~= v@.take(i as int).push(v@[i as int]));
        }
        i = i + 1;
    }
    proof {
        assert(v@.take(v@.len() as int) =~= v@);
    }
    r
}

/// Copies an optional list of key/value pairs.
pub fn clone_opt_pairs_vec(o: &Option<Vec<(String, String)>>) -> (r: Option<
    Vec<(String, String)>,
>)
    ensures
        opt_pairs_match(*o, r),
{
    match o {
        Option::None => None,
        Option::Some(v) => Some(clone_pairs_vec(v)),
    }
}

/// Copies a list of environment variables, entry for entry.
pub fn clone_env_vars(v: &Vec<EnvVar>) -> (r: Vec<EnvVar>)
    ensures
        r@ == v@,
{
    let mut r: Vec<EnvVar> = Vec::new();
    let mut i: usize = 0;
    while i < v.len()
        invariant
            0 <= i <= v@.len(),
            r@ == v@.take(i as int),
        decreases v@.len() - i,
    {
        r.push(v[i].clone());
        proof {
            assert(v@.take((i + 1) as int) =~= v@.take(i as int).push(v@[i as int]));
        }
        i = i + 1;
    }
    proof {
        assert(v@.take(v@.len() as int) =~= v@);
    }
    r
}

/// Copies a list of environment sources, entry for entry.
pub fn clone_env_from(v: &Vec<EnvFromSource>) -> (r: Vec<EnvFromSource>)
    ensures
        r@ == v@,
{
    let mut r: Vec<EnvFromSource> = Vec::new();
    let mut i: usize = 0;
    while i < v.len()
        invariant
            0 <= i <= v@.len(),
            r@ == v@.take(i as int),
        decreases v@.len() - i,
    {
        r.push(v[i].clone());
        proof {
            assert(v@.take((i + 1) as int) =~= v@.take(i as int).push(v@[i as int]));
        }
        i = i + 1;
    }
    proof {
        assert(v@.take(v@.len() as int) =~= v@);
    }
    r
}

/// Copies a list of volume mounts, entry for entry.
pub fn clone_mounts(v: &Vec<VolumeMount>) -> (r: Vec<VolumeMount>)
    ensures
        r@ == v@,
{
    let mut r: Vec<VolumeMount> = Vec::new();
    let mut i: usize = 0;
    while i < v.len()
        invariant
            0 <= i <= v@.len(),
            r@ == v@.take(i as int),
        decreases v@.len() - i,
    {
        r.push(v[i].clone());
        proof {
            assert(v@.take((i + 1) as int) =~= v@.take(i as int).push(v@[i as int]));
        }
        i = i + 1;
    }
    proof {
        assert(v@.take(v@.len() as int) =~= v@);
    }
    r
}

/// Copies a list of volumes, entry for entry.
pub fn clone_volumes(v: &Vec<Volume>) -> (r: Vec<Volume>)
    ensures
        r@ == v@,
{
    let mut r: Vec<Volume> = Vec::new();
    let mut i: usize = 0;
    while i < v.len()
        invariant
            0 <= i <= v@.len(),
            r@ == v@.take(i as int),
        decreases v@.len() - i,
    {
        r.push(v[i].clone());
        proof {
            assert(v@.take((i + 1) as int) =~= v@.take(i as int).push(v@[i as int]));
        }
        i = i + 1;
    }
    proof {
        assert(v@.take(v@.len() as int) =~= v@);
    }
    r
}

} // verus!
