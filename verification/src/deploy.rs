//! Deployment of the dependent-resource set.
//!
//! A custom resource owns exactly two dependents: the configuration
//! artifact and the execution resource (job or cron job). This module
//! holds what their deployment shares: the fixed label pair, the owner
//! reference back-link, the dependent metadata, and a model of the
//! create/delete orchestration against the cluster, on which the ordering
//! and idempotence guarantees are proved.
//!
//! The model works on the observed state of the two dependents and on the
//! outcome the cluster API gives each call; the process boundary performs
//! the calls themselves and feeds the outcomes back in.

use vstd::prelude::*;

use crate::error::Error;
use crate::k8s::{ObjectMeta, OwnerReference};

verus! {

/// What the controller schedules after a reconcile: a requeue after a
/// delay — the long heartbeat on success, the short one on error — or
/// waiting for the next change of the resource.
#[derive(Debug, Clone, Copy, PartialEq, Eq, Structural)]
pub enum Action {
    Requeue { secs: u64 },
    AwaitChange,
}

/// The steady-state heartbeat: seconds until the next reconcile after a
/// successful pass.
pub const REQUEUE_SECS: u64 = 10;

/// The error backoff: seconds until the retry after a failed pass.
pub const ERROR_REQUEUE_SECS: u64 = 5;

/// The two labels every dependent resource carries: the application name
/// and the fixed managing-operator marker.
#[derive(Debug, Clone, PartialEq, Eq)]
pub struct Labels {
    pub app_name: String,
}

/// What `Labels::to_labels` emits: the application-name pair followed by
/// the managed-by pair.
pub open spec fn spec_label_pairs(l: Labels, pairs: Seq<(String, String)>) -> bool {
    &&& pairs.len() == 2
    &&& pairs[0].0@ == "app.kubernetes.io/name"@
    &&& pairs[0].1 == l.app_name
    &&& pairs[1].0@ == "app.kubernetes.io/managed-by"@
    &&& pairs[1].1@ == "restic-operator"@
}

impl Labels {
    pub fn new(app_name: String) -> (r: Labels)
        ensures
            r.app_name == app_name,
    {
        Labels { app_name }
    }

    /// The label pairs as key/value entries.
    pub fn to_labels(&self) -> (r: Vec<(String, String)>)
        ensures
            spec_label_pairs(*self, r@),
    {
        let mut labels: Vec<(String, String)> = Vec::new();
        labels.push((String::from_str("app.kubernetes.io/name"), self.app_name.clone()));
        labels.push((String::from_str("app.kubernetes.io/managed-by"), String::from_str(
            "restic-operator",
        )));
        labels
    }
}

/// The narrow view of an owner resource: stable identity plus API
/// group/version/kind metadata. Any resource kind that supplies these may
/// own the dependent set.
#[derive(Debug, Clone, PartialEq, Eq)]
pub struct OwnerInfo {
    pub api_version: String,
    pub kind: String,
    pub name: String,
    pub uid: Option<String>,
}

/// What the owner-reference list derived from an owner looks like: absent
/// when the owner has no uid, else exactly one controller reference with
/// block-owner-deletion set.
pub open spec fn spec_owner_references(o: OwnerInfo, r: Option<Vec<OwnerReference>>) -> bool {
    match o.uid {
        Option::None => r is None,
        Option::Some(uid) => {
            &&& r matches Option::Some(v)
            &&& v@.len() == 1
            &&& v@[0].api_version == o.api_version
            &&& v@[0].kind == o.kind
            &&& v@[0].name == o.name
            &&& v@[0].uid == uid
            &&& v@[0].controller == Option::Some(true)
            &&& v@[0].block_owner_deletion == Option::Some(true)
        },
    }
}

/// The owner references a dependent carries: one controller reference to
/// the owner, or none when the owner has no uid yet.
pub fn owner_references(owner: &OwnerInfo) -> (r: Option<Vec<OwnerReference>>)
    ensures
        spec_owner_references(*owner, r),
{
    match &owner.uid {
        Option::None => None,
        Option::Some(uid) => {
            let mut refs: Vec<OwnerReference> = Vec::new();
            refs.push(
                OwnerReference {
                    api_version: owner.api_version.clone(),
                    kind: owner.kind.clone(),
                    name: owner.name.clone(),
                    uid: uid.clone(),
                    controller: Some(true),
                    block_owner_deletion: Some(true),
                },
            );
            Some(refs)
        },
    }
}

/// What the metadata of a freshly composed dependent looks like.
pub open spec fn spec_dependent_meta(
    name: String,
    ns: String,
    labels: Labels,
    owner: OwnerInfo,
    m: ObjectMeta,
) -> bool {
    &&& m.name == Option::Some(name)
    &&& m.namespace == Option::Some(ns)
    &&& m.labels matches Option::Some(pairs) && spec_label_pairs(labels, pairs@)
    &&& spec_owner_references(owner, m.owner_references)
    &&& m.uid is None
    &&& m.finalizers is None
    &&& m.deletion_timestamp is None
}

/// The metadata every dependent is created with: its deterministic name,
/// the owner's namespace, the label pair, and the owner reference.
pub fn dependent_meta(name: String, ns: String, labels: &Labels, owner: &OwnerInfo) -> (m:
    ObjectMeta)
    ensures
        spec_dependent_meta(name, ns, *labels, *owner, m),
{
    ObjectMeta {
        name: Some(name),
        namespace: Some(ns),
        uid: None,
        labels: Some(labels.to_labels()),
        owner_references: owner_references(owner),
        finalizers: None,
        deletion_timestamp: None,
    }
}

/// The observed state the orchestration model works on: which of the two
/// dependents exist, and whether the parent still carries the finalizer.
#[derive(Debug, Clone, Copy, PartialEq, Eq, Structural)]
pub struct ClusterState {
    pub profile_exists: bool,
    pub job_exists: bool,
    pub finalizer_set: bool,
}

/// The outcome the cluster API gives each call a reconcile may make; a set
/// flag means that call, if made, fails with a transient error.
#[derive(Debug, Clone, Copy, PartialEq, Eq, Structural)]
pub struct ApiFaults {
    pub profile_get_fails: bool,
    pub profile_op_fails: bool,
    pub job_get_fails: bool,
    pub job_op_fails: bool,
    pub finalizer_patch_fails: bool,
}

impl ApiFaults {
    /// A healthy cluster: every call succeeds.
    pub fn none() -> (r: ApiFaults)
        ensures
            r == spec_no_faults(),
    {
        ApiFaults {
            profile_get_fails: false,
            profile_op_fails: false,
            job_get_fails: false,
            job_op_fails: false,
            finalizer_patch_fails: false,
        }
    }
}

/// Faults with every flag clear.
pub open spec fn spec_no_faults() -> ApiFaults {
    ApiFaults {
        profile_get_fails: false,
        profile_op_fails: false,
        job_get_fails: false,
        job_op_fails: false,
        finalizer_patch_fails: false,
    }
}

/// Neither dependent exists.
pub open spec fn dependents_gone(c: ClusterState) -> bool {
    !c.profile_exists && !c.job_exists
}

/// The cross-resource consistency guarantee: while a dependent exists, the
/// parent's finalizer is set.
pub open spec fn finalizer_guards_dependents(c: ClusterState) -> bool {
    (c.profile_exists || c.job_exists) ==> c.finalizer_set
}

/// Whether creating the dependent set succeeds: the artifact create and
/// the execution-resource create must both go through. A create that finds
/// its resource already present counts as success.
pub open spec fn spec_create_ok(f: ApiFaults) -> bool {
    !f.profile_op_fails && !f.job_op_fails
}

/// The state after creating the dependent set: the artifact first, the
/// execution resource second, stopping at the first failure.
pub open spec fn spec_create_state(c: ClusterState, f: ApiFaults) -> ClusterState {
    if f.profile_op_fails {
        c
    } else if f.job_op_fails {
        ClusterState { profile_exists: true, job_exists: c.job_exists, finalizer_set: c.finalizer_set }
    } else {
        ClusterState { profile_exists: true, job_exists: true, finalizer_set: c.finalizer_set }
    }
}

/// Whether deleting the dependent set succeeds: each dependent is looked
/// up, and deleted only when found; an absent dependent is success without
/// a delete call.
pub open spec fn spec_delete_ok(c: ClusterState, f: ApiFaults) -> bool {
    &&& !f.profile_get_fails
    &&& !(c.profile_exists && f.profile_op_fails)
    &&& !f.job_get_fails
    &&& !(c.job_exists && f.job_op_fails)
}

/// The state after the artifact's delete step alone.
pub open spec fn spec_delete_profile_step(c: ClusterState, f: ApiFaults) -> ClusterState {
    if f.profile_get_fails || (c.profile_exists && f.profile_op_fails) {
        c
    } else {
        ClusterState { profile_exists: false, job_exists: c.job_exists, finalizer_set: c.finalizer_set }
    }
}

/// The state after deleting the dependent set: the artifact step, then,
/// if it went through, the execution-resource step.
pub open spec fn spec_delete_state(c: ClusterState, f: ApiFaults) -> ClusterState {
    let c1 = spec_delete_profile_step(c, f);
    if f.profile_get_fails || (c.profile_exists && f.profile_op_fails) {
        c1
    } else if f.job_get_fails || (c.job_exists && f.job_op_fails) {
        c1
    } else {
        ClusterState { profile_exists: false, job_exists: false, finalizer_set: c.finalizer_set }
    }
}

/// Creates the dependent set against the observed state: the configuration
/// artifact is created before the execution resource that mounts it, and a
/// failure aborts the call; the idempotent retry of the next reconcile
/// completes the rest. Finding a dependent already present is success.
pub fn deployment_create(c: ClusterState, f: ApiFaults) -> (r: (ClusterState, Result<(), Error>))
    ensures
        r.0 == spec_create_state(c, f),
        r.1 is Ok <==> spec_create_ok(f),
        r.1 matches Err(e) ==> e.is_kube(),
        r.0.finalizer_set == c.finalizer_set,
        c.finalizer_set ==> finalizer_guards_dependents(r.0),
{
    if f.profile_op_fails {
        return (c, Err(Error::KubeError { message: String::from_str("config artifact create rejected") }));
    }
    let c1 = ClusterState { profile_exists: true, job_exists: c.job_exists, finalizer_set: c.finalizer_set };
    if f.job_op_fails {
        return (c1, Err(Error::KubeError { message: String::from_str("execution resource create rejected") }));
    }
    let c2 = ClusterState { profile_exists: true, job_exists: true, finalizer_set: c.finalizer_set };
    (c2, Ok(()))
}

/// Deletes the dependent set against the observed state: each dependent is
/// looked up by its deterministic name and deleted only when found, so an
/// already-absent dependent is success; the first failure aborts the call.
pub fn deployment_delete(c: ClusterState, f: ApiFaults) -> (r: (ClusterState, Result<(), Error>))
    ensures
        r.0 == spec_delete_state(c, f),
        r.1 is Ok <==> spec_delete_ok(c, f),
        r.1 matches Err(e) ==> e.is_kube(),
        r.0.finalizer_set == c.finalizer_set,
        r.1 is Ok ==> dependents_gone(r.0),
        r.0.profile_exists ==> c.profile_exists,
        r.0.job_exists ==> c.job_exists,
{
    if f.profile_get_fails {
        return (c, Err(Error::KubeError { message: String::from_str("config artifact lookup failed") }));
    }
    if c.profile_exists && f.profile_op_fails {
        return (c, Err(Error::KubeError { message: String::from_str("config artifact delete rejected") }));
    }
    let c1 = ClusterState { profile_exists: false, job_exists: c.job_exists, finalizer_set: c.finalizer_set };
    if f.job_get_fails {
        return (c1, Err(Error::KubeError { message: String::from_str("execution resource lookup failed") }));
    }
    if c.job_exists && f.job_op_fails {
        return (c1, Err(Error::KubeError { message: String::from_str("execution resource delete rejected") }));
    }
    let c2 = ClusterState { profile_exists: false, job_exists: false, finalizer_set: c.finalizer_set };
    (c2, Ok(()))
}

/// Deleting the dependent set is idempotent: once one delete has gone
/// through, a second delete that observes the cluster (both lookups
/// succeed) succeeds again, touches nothing, and makes no delete call that
/// could fail.
pub proof fn lemma_delete_idempotent(c: ClusterState, f1: ApiFaults, f2: ApiFaults)
    requires
        spec_delete_ok(c, f1),
        !f2.profile_get_fails,
        !f2.job_get_fails,
    ensures
        spec_delete_ok(spec_delete_state(c, f1), f2),
        spec_delete_state(spec_delete_state(c, f1), f2) == spec_delete_state(c, f1),
{
}

/// Deleting the dependent set never disturbs the finalizer guard: at every
/// observable point of the teardown — after the artifact step and after
/// the whole delete — a still-existing dependent implies the finalizer is
/// still set.
pub proof fn lemma_delete_preserves_guard(c: ClusterState, f: ApiFaults)
    requires
        finalizer_guards_dependents(c),
    ensures
        finalizer_guards_dependents(spec_delete_profile_step(c, f)),
        finalizer_guards_dependents(spec_delete_state(c, f)),
{
}

} // verus!
