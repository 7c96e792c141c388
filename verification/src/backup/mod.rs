//! The reconciliation controller for the `Backup` resource kind.
//!
//! Per reconcile the controller decides one of three actions from the
//! observed resource alone — create, delete, or nothing — and drives the
//! finalizer and the dependent set accordingly. The decision and the
//! orchestration are verified here against the cluster model; the watch
//! loop and the API calls live at the process boundary.

use vstd::prelude::*;

use crate::crd::Backup;
use crate::deploy::{
    deployment_create, deployment_delete, finalizer_guards_dependents, spec_create_ok,
    spec_create_state, spec_delete_ok, spec_delete_state, spec_no_faults, Action, ApiFaults,
    ClusterState, ERROR_REQUEUE_SECS, REQUEUE_SECS,
};
use crate::error::Error;
use crate::finalizer::spec_finalizer_present;

pub mod deploy;
pub mod job;

verus! {

/// The three actions a reconcile can decide on.
#[derive(Debug, Clone, Copy, PartialEq, Eq, Structural)]
pub enum BackupAction {
    /// Add the finalizer and create the dependent set.
    Create,
    /// Delete the dependent set, then release the finalizer.
    Delete,
    /// Nothing to change; schedule the heartbeat.
    Noop,
}

/// The decided action: deletion intent always wins; otherwise a missing
/// finalizer calls for creation; otherwise nothing is to be done.
pub open spec fn spec_action(b: Backup) -> BackupAction {
    if b.metadata.deletion_timestamp is Some {
        BackupAction::Delete
    } else if !spec_finalizer_present(b.metadata.finalizers) {
        BackupAction::Create
    } else {
        BackupAction::Noop
    }
}

/// Decides the action for one observed resource. The deletion-timestamp
/// check takes precedence, so a resource mid-deletion — whatever its
/// finalizer list holds — is never re-entered into creation.
pub fn determine_action(backup: &Backup) -> (r: BackupAction)
    ensures
        r == spec_action(*backup),
{
    if backup.metadata.deletion_timestamp.is_some() {
        BackupAction::Delete
    } else if !crate::finalizer::has_finalizer(&backup.metadata.finalizers) {
        BackupAction::Create
    } else {
        BackupAction::Noop
    }
}

/// The cluster state one reconcile leaves behind, by decided action.
pub open spec fn spec_reconcile_state(b: Backup, c: ClusterState, f: ApiFaults) -> ClusterState {
    if b.metadata.namespace is None {
        c
    } else {
        match spec_action(b) {
            BackupAction::Create => {
                if f.finalizer_patch_fails {
                    c
                } else {
                    spec_create_state(
                        ClusterState {
                            profile_exists: c.profile_exists,
                            job_exists: c.job_exists,
                            finalizer_set: true,
                        },
                        f,
                    )
                }
            },
            BackupAction::Delete => {
                let c2 = spec_delete_state(c, f);
                if spec_delete_ok(c, f) && !f.finalizer_patch_fails {
                    ClusterState {
                        profile_exists: c2.profile_exists,
                        job_exists: c2.job_exists,
                        finalizer_set: false,
                    }
                } else {
                    c2
                }
            },
            BackupAction::Noop => c,
        }
    }
}

/// Whether one reconcile succeeds.
pub open spec fn spec_reconcile_ok(b: Backup, c: ClusterState, f: ApiFaults) -> bool {
    &&& b.metadata.namespace is Some
    &&& match spec_action(b) {
        BackupAction::Create => !f.finalizer_patch_fails && spec_create_ok(f),
        BackupAction::Delete => spec_delete_ok(c, f) && !f.finalizer_patch_fails,
        BackupAction::Noop => true,
    }
}

/// One reconcile of a `Backup`, run against the cluster model.
///
/// On `Create` the finalizer is added before any dependent is created; on
/// `Delete` the dependent set is deleted before the finalizer is
/// released, and a successful delete awaits the resource's disappearance
/// instead of requeueing. Any error aborts the pass and leaves the rest
/// to the retry. Whatever fails, the finalizer guard is preserved: no
/// reachable state shows a dependent without the finalizer.
pub fn reconcile(backup: &Backup, cluster: ClusterState, faults: ApiFaults) -> (r: (
    ClusterState,
    Result<Action, Error>,
))
    ensures
        r.0 == spec_reconcile_state(*backup, cluster, faults),
        r.1 is Ok <==> spec_reconcile_ok(*backup, cluster, faults),
        backup.metadata.namespace is None ==> r.1 == Result::<Action, Error>::Err(
            Error::MissingNamespace,
        ),
        backup.metadata.namespace is Some ==> (r.1 matches Err(e) ==> e.is_kube()),
        r.1 matches Ok(a) ==> a == (match spec_action(*backup) {
            BackupAction::Delete => Action::AwaitChange,
            _ => Action::Requeue { secs: REQUEUE_SECS as u64 },
        }),
        finalizer_guards_dependents(cluster) ==> finalizer_guards_dependents(r.0),
{
    if backup.metadata.namespace.is_none() {
        return (cluster, Err(Error::MissingNamespace));
    }
    match determine_action(backup) {
        BackupAction::Create => {
            if faults.finalizer_patch_fails {
                return (
                    cluster,
                    Err(Error::KubeError { message: String::from_str("finalizer patch rejected") }),
                );
            }
            let guarded = ClusterState {
                profile_exists: cluster.profile_exists,
                job_exists: cluster.job_exists,
                finalizer_set: true,
            };
            let (after, outcome) = deployment_create(guarded, faults);
            match outcome {
                Ok(()) => (after, Ok(Action::Requeue { secs: REQUEUE_SECS })),
                Err(e) => (after, Err(e)),
            }
        },
        BackupAction::Delete => {
            let (after, outcome) = deployment_delete(cluster, faults);
            match outcome {
                Err(e) => (after, Err(e)),
                Ok(()) => {
                    if faults.finalizer_patch_fails {
                        (
                            after,
                            Err(
                                Error::KubeError {
                                    message: String::from_str("finalizer release rejected"),
                                },
                            ),
                        )
                    } else {
                        let released = ClusterState {
                            profile_exists: after.profile_exists,
                            job_exists: after.job_exists,
                            finalizer_set: false,
                        };
                        (released, Ok(Action::AwaitChange))
                    }
                },
            }
        },
        BackupAction::Noop => (cluster, Ok(Action::Requeue { secs: REQUEUE_SECS })),
    }
}

/// What the per-kind error handler schedules for any failed reconcile:
/// the short requeue, never process termination.
pub fn on_error(backup: &Backup, error: &Error) -> (r: Action)
    ensures
        r == (Action::Requeue { secs: ERROR_REQUEUE_SECS as u64 }),
{
    let _ = backup;
    let _ = error;
    Action::Requeue { secs: ERROR_REQUEUE_SECS }
}

/// The finalizer ordering guarantee across a whole reconcile: starting
/// from a state where every dependent is guarded by the finalizer, the
/// state a reconcile leaves behind — whichever calls failed — is guarded
/// too. The finalizer is added before any dependent is created and
/// released only after both dependents are confirmed gone, so no
/// observable state shows a dependent outliving the finalizer.
pub proof fn lemma_reconcile_preserves_guard(b: Backup, c: ClusterState, f: ApiFaults)
    requires
        finalizer_guards_dependents(c),
    ensures
        finalizer_guards_dependents(spec_reconcile_state(b, c, f)),
{
}

/// Reconciliation is level-triggered and idempotent: on a healthy
/// cluster, a second pass over the same resource finds the state the
/// first pass left and changes nothing.
pub proof fn lemma_reconcile_idempotent(b: Backup, c: ClusterState)
    ensures
        spec_reconcile_state(b, spec_reconcile_state(b, c, spec_no_faults()), spec_no_faults())
            == spec_reconcile_state(b, c, spec_no_faults()),
{
}

} // verus!
