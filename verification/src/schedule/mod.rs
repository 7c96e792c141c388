//! The reconciliation controller for the `ScheduledBackup` resource kind.
//!
//! The same three-action state machine as the `Backup` controller, over
//! the recurring dependent set; a successful delete schedules the
//! heartbeat requeue rather than awaiting the resource's disappearance.

use vstd::prelude::*;

use crate::crd::ScheduledBackup;
use crate::deploy::{
    deployment_create, deployment_delete, finalizer_guards_dependents, spec_create_ok,
    spec_create_state, spec_delete_ok, spec_delete_state, spec_no_faults, Action, ApiFaults,
    ClusterState, ERROR_REQUEUE_SECS, REQUEUE_SECS,
};
use crate::error::Error;
use crate::finalizer::spec_finalizer_present;

pub mod cronjob;
pub mod deploy;

verus! {

/// The three actions a reconcile can decide on.
#[derive(Debug, Clone, Copy, PartialEq, Eq, Structural)]
pub enum ScheduledBackupAction {
    /// Add the finalizer and create the dependent set.
    Create,
    /// Delete the dependent set, then release the finalizer.
    Delete,
    /// Nothing to change; schedule the heartbeat.
    Noop,
}

/// The decided action: deletion intent always wins; otherwise a missing
/// finalizer calls for creation; otherwise nothing is to be done.
pub open spec fn spec_action(b: ScheduledBackup) -> ScheduledBackupAction {
    if b.metadata.deletion_timestamp is Some {
        ScheduledBackupAction::Delete
    } else if !spec_finalizer_present(b.metadata.finalizers) {
        ScheduledBackupAction::Create
    } else {
        ScheduledBackupAction::Noop
    }
}

/// Decides the action for one observed resource. The deletion-timestamp
/// check takes precedence, so a resource mid-deletion — whatever its
/// finalizer list holds — is never re-entered into creation.
pub fn determine_action(backup: &ScheduledBackup) -> (r: ScheduledBackupAction)
    ensures
        r == spec_action(*backup),
{
    if backup.metadata.deletion_timestamp.is_some() {
        ScheduledBackupAction::Delete
    } else if !crate::finalizer::has_finalizer(&backup.metadata.finalizers) {
        ScheduledBackupAction::Create
    } else {
        ScheduledBackupAction::Noop
    }
}

/// The cluster state one reconcile leaves behind, by decided action.
pub open spec fn spec_reconcile_state(
    b: ScheduledBackup,
    c: ClusterState,
    f: ApiFaults,
) -> ClusterState {
    if b.metadata.namespace is None {
        c
    } else {
        match spec_action(b) {
            ScheduledBackupAction::Create => {
                if f.finalizer_patch_fails {
                    c
                } else {
                    spec_create_state(
                        ClusterState {
                            profile_exists: c.profile_exists,
                            job_exists: c.job_exists,
                            finalizer_set: true,
                        },
                        f,
                    )
                }
            },
            ScheduledBackupAction::Delete => {
                let c2 = spec_delete_state(c, f);
                if spec_delete_ok(c, f) && !f.finalizer_patch_fails {
                    ClusterState {
                        profile_exists: c2.profile_exists,
                        job_exists: c2.job_exists,
                        finalizer_set: false,
                    }
                } else {
                    c2
                }
            },
            ScheduledBackupAction::Noop => c,
        }
    }
}

/// Whether one reconcile succeeds.
pub open spec fn spec_reconcile_ok(b: ScheduledBackup, c: ClusterState, f: ApiFaults) -> bool {
    &&& b.metadata.namespace is Some
    &&& match spec_action(b) {
        ScheduledBackupAction::Create => !f.finalizer_patch_fails && spec_create_ok(f),
        ScheduledBackupAction::Delete => spec_delete_ok(c, f) && !f.finalizer_patch_fails,
        ScheduledBackupAction::Noop => true,
    }
}

/// One reconcile of a `ScheduledBackup`, run against the cluster model.
///
/// On `Create` the finalizer is added before any dependent is created; on
/// `Delete` the dependent set is deleted before the finalizer is
/// released. Any error aborts the pass and leaves the rest to the retry.
/// Whatever fails, the finalizer guard is preserved: no reachable state
/// shows a dependent without the finalizer.
pub fn reconcile(backup: &ScheduledBackup, cluster: ClusterState, faults: ApiFaults) -> (r: (
    ClusterState,
    Result<Action, Error>,
))
    ensures
        r.0 == spec_reconcile_state(*backup, cluster, faults),
        r.1 is Ok <==> spec_reconcile_ok(*backup, cluster, faults),
        backup.metadata.namespace is None ==> r.1 == Result::<Action, Error>::Err(
            Error::MissingNamespace,
        ),
        backup.metadata.namespace is Some ==> (r.1 matches Err(e) ==> e.is_kube()),
        r.1 matches Ok(a) ==> a == (Action::Requeue {
            secs: REQUEUE_SECS as u64,
        }),
        finalizer_guards_dependents(cluster) ==> finalizer_guards_dependents(r.0),
{
    if backup.metadata.namespace.is_none() {
        return (cluster, Err(Error::MissingNamespace));
    }
    match determine_action(backup) {
        ScheduledBackupAction::Create => {
            if faults.finalizer_patch_fails {
                return (
                    cluster,
                    Err(Error::KubeError { message: String::from_str("finalizer patch rejected") }),
                );
            }
            let guarded = ClusterState {
                profile_exists: cluster.profile_exists,
                job_exists: cluster.job_exists,
                finalizer_set: true,
            };
            let (after, outcome) = deployment_create(guarded, faults);
            match outcome {
                Ok(()) => (after, Ok(Action::Requeue { secs: REQUEUE_SECS })),
                Err(e) => (after, Err(e)),
            }
        },
        ScheduledBackupAction::Delete => {
            let (after, outcome) = deployment_delete(cluster, faults);
            match outcome {
                Err(e) => (after, Err(e)),
                Ok(()) => {
                    if faults.finalizer_patch_fails {
                        (
                            after,
                            Err(
                                Error::KubeError {
                                    message: String::from_str("finalizer release rejected"),
                                },
                            ),
                        )
                    } else {
                        let released = ClusterState {
                            profile_exists: after.profile_exists,
                            job_exists: after.job_exists,
                            finalizer_set: false,
                        };
                        (released, Ok(Action::Requeue { secs: REQUEUE_SECS }))
                    }
                },
            }
        },
        ScheduledBackupAction::Noop => (
            cluster,
            Ok(Action::Requeue { secs: REQUEUE_SECS }),
        ),
    }
}

/// What the per-kind error handler schedules for any failed reconcile:
/// the short requeue, never process termination.
pub fn on_error(backup: &ScheduledBackup, error: &Error) -> (r: Action)
    ensures
        r == (Action::Requeue { secs: ERROR_REQUEUE_SECS as u64 }),
{
    let _ = backup;
    let _ = error;
    Action::Requeue { secs: ERROR_REQUEUE_SECS }
}

/// The finalizer ordering guarantee across a whole reconcile, as for the
/// one-shot kind: a guarded state stays guarded, whichever calls failed.
pub proof fn lemma_reconcile_preserves_guard(b: ScheduledBackup, c: ClusterState, f: ApiFaults)
    requires
        finalizer_guards_dependents(c),
    ensures
        finalizer_guards_dependents(spec_reconcile_state(b, c, f)),
{
}

/// Reconciliation is level-triggered and idempotent: on a healthy
/// cluster, a second pass over the same resource finds the state the
/// first pass left and changes nothing.
pub proof fn lemma_reconcile_idempotent(b: ScheduledBackup, c: ClusterState)
    ensures
        spec_reconcile_state(b, spec_reconcile_state(b, c, spec_no_faults()), spec_no_faults())
            == spec_reconcile_state(b, c, spec_no_faults()),
{
}

} // verus!
