//! The action state machine, the orchestration model, and the finalizer
//! operations.

use restic_operator::backup::{determine_action, on_error, reconcile, BackupAction};
use restic_operator::crd::{
    Backup, BackupSpec, Compression, Repository, RepositoryType, ResticConfig, ScheduledBackup,
    ScheduledBackupSpec,
};
use restic_operator::deploy::{
    deployment_delete, Action, ApiFaults, ClusterState, Labels, OwnerInfo,
};
use restic_operator::error::Error;
use restic_operator::finalizer::{add_patch, apply_add, apply_remove, remove_patch, FINALIZER};
use restic_operator::k8s::{ObjectMeta, SecretKeySelector, Time};

fn spec() -> BackupSpec {
    BackupSpec {
        restic: ResticConfig {
            repository: Repository {
                repository_type: RepositoryType::Rest,
                uri: "https://example.com".to_string(),
                password: SecretKeySelector {
                    name: "restic-password".to_string(),
                    key: "password.txt".to_string(),
                    optional: None,
                },
                rest_credentials: None,
            },
            compression: Compression::Auto,
            pack_size: None,
            retention: None,
            backup: None,
        },
        restic_profile: None,
        volume: None,
    }
}

fn meta(
    deletion: bool,
    finalizers: Option<Vec<String>>,
    namespace: Option<&str>,
) -> ObjectMeta {
    ObjectMeta {
        name: Some("test".to_string()),
        namespace: namespace.map(|s| s.to_string()),
        uid: Some("uid-1".to_string()),
        labels: None,
        owner_references: None,
        finalizers,
        deletion_timestamp: if deletion {
            Some(Time {
                stamp: "2024-01-01T00:00:00Z".to_string(),
            })
        } else {
            None
        },
    }
}

fn backup(deletion: bool, finalizers: Option<Vec<String>>) -> Backup {
    Backup {
        metadata: meta(deletion, finalizers, Some("default")),
        spec: spec(),
        status: None,
    }
}

#[test]
fn fresh_resource_resolves_to_create() {
    assert_eq!(determine_action(&backup(false, None)), BackupAction::Create);
    assert_eq!(
        determine_action(&backup(false, Some(vec!["other/finalizer".to_string()]))),
        BackupAction::Create
    );
}

#[test]
fn finalized_resource_resolves_to_noop() {
    assert_eq!(
        determine_action(&backup(false, Some(vec![FINALIZER.to_string()]))),
        BackupAction::Noop
    );
}

#[test]
fn deletion_timestamp_resolves_to_delete_whatever_the_finalizers() {
    // Deletion intent wins over every finalizer-list content that still
    // carries the marker.
    assert_eq!(
        determine_action(&backup(true, Some(vec![FINALIZER.to_string()]))),
        BackupAction::Delete
    );
    assert_eq!(
        determine_action(&backup(
            true,
            Some(vec![
                "first/other".to_string(),
                FINALIZER.to_string(),
                "last/other".to_string(),
            ])
        )),
        BackupAction::Delete
    );
    // Even mid-deletion without the marker, the resource never re-enters
    // creation.
    assert_eq!(determine_action(&backup(true, None)), BackupAction::Delete);
}

#[test]
fn delete_on_absent_dependents_is_success_twice() {
    // First delete: both dependents exist, the cluster is healthy.
    let start = ClusterState {
        profile_exists: true,
        job_exists: true,
        finalizer_set: true,
    };
    let (after_first, first) = deployment_delete(start, ApiFaults::none());
    assert!(first.is_ok());
    assert!(!after_first.profile_exists);
    assert!(!after_first.job_exists);

    // Second delete observes not-found everywhere; even with delete calls
    // poised to fail, none is made, and the call succeeds unchanged.
    let faults = ApiFaults {
        profile_op_fails: true,
        job_op_fails: true,
        ..ApiFaults::none()
    };
    let (after_second, second) = deployment_delete(after_first, faults);
    assert!(second.is_ok());
    assert_eq!(after_second, after_first);
}

#[test]
fn partial_delete_failure_never_drops_the_finalizer() {
    let start = ClusterState {
        profile_exists: true,
        job_exists: true,
        finalizer_set: true,
    };
    // The artifact delete goes through, the job delete fails: the pass
    // aborts with the finalizer still set.
    let faults = ApiFaults {
        job_op_fails: true,
        ..ApiFaults::none()
    };
    let resource = backup(true, Some(vec![FINALIZER.to_string()]));
    let (after, outcome) = reconcile(&resource, start, faults);
    assert!(matches!(outcome, Err(Error::KubeError { .. })));
    assert!(!after.profile_exists);
    assert!(after.job_exists);
    assert!(after.finalizer_set);
}

#[test]
fn successful_delete_releases_the_finalizer_last() {
    let start = ClusterState {
        profile_exists: true,
        job_exists: true,
        finalizer_set: true,
    };
    let resource = backup(true, Some(vec![FINALIZER.to_string()]));
    let (after, outcome) = reconcile(&resource, start, ApiFaults::none());
    assert_eq!(outcome, Ok(Action::AwaitChange));
    assert!(!after.profile_exists);
    assert!(!after.job_exists);
    assert!(!after.finalizer_set);
}

#[test]
fn create_adds_finalizer_before_dependents() {
    let start = ClusterState {
        profile_exists: false,
        job_exists: false,
        finalizer_set: false,
    };
    // The artifact create fails: the finalizer is already set, no
    // dependent exists yet.
    let faults = ApiFaults {
        profile_op_fails: true,
        ..ApiFaults::none()
    };
    let resource = backup(false, None);
    let (after, outcome) = reconcile(&resource, start, faults);
    assert!(outcome.is_err());
    assert!(after.finalizer_set);
    assert!(!after.profile_exists);
    assert!(!after.job_exists);

    // A healthy pass creates both dependents and schedules the heartbeat.
    let (done, outcome) = reconcile(&resource, start, ApiFaults::none());
    assert_eq!(outcome, Ok(Action::Requeue { secs: 10 }));
    assert!(done.finalizer_set);
    assert!(done.profile_exists);
    assert!(done.job_exists);
}

#[test]
fn reconcile_changes_nothing_the_second_time() {
    let resource = backup(false, None);
    let start = ClusterState {
        profile_exists: false,
        job_exists: false,
        finalizer_set: false,
    };
    let (once, first) = reconcile(&resource, start, ApiFaults::none());
    let (twice, second) = reconcile(&resource, once, ApiFaults::none());
    assert!(first.is_ok());
    assert!(second.is_ok());
    assert_eq!(twice, once);
}

#[test]
fn missing_namespace_is_fatal_to_the_reconcile() {
    let resource = Backup {
        metadata: meta(false, None, None),
        spec: spec(),
        status: None,
    };
    let start = ClusterState {
        profile_exists: false,
        job_exists: false,
        finalizer_set: false,
    };
    let (after, outcome) = reconcile(&resource, start, ApiFaults::none());
    assert_eq!(outcome, Err(Error::MissingNamespace));
    assert_eq!(after, start);
}

#[test]
fn errors_schedule_the_short_requeue() {
    let resource = backup(false, None);
    let action = on_error(&resource, &Error::MissingNamespace);
    assert_eq!(action, Action::Requeue { secs: 5 });
}

#[test]
fn scheduled_backup_controller_mirrors_the_state_machine() {
    let scheduled = ScheduledBackup {
        metadata: meta(true, Some(vec![FINALIZER.to_string()]), Some("default")),
        spec: ScheduledBackupSpec {
            schedule: "0 2 * * *".to_string(),
            backup: spec(),
            concurrency_policy: None,
            failed_jobs_history_limit: None,
            starting_deadline_seconds: None,
            successful_jobs_history_limit: None,
            suspend: None,
            time_zone: None,
        },
        status: None,
    };
    assert_eq!(
        restic_operator::schedule::determine_action(&scheduled),
        restic_operator::schedule::ScheduledBackupAction::Delete
    );
    let start = ClusterState {
        profile_exists: true,
        job_exists: true,
        finalizer_set: true,
    };
    let (after, outcome) = restic_operator::schedule::reconcile(&scheduled, start, ApiFaults::none());
    // The recurring kind requeues after a successful delete instead of
    // awaiting the resource's disappearance.
    assert_eq!(outcome, Ok(Action::Requeue { secs: 10 }));
    assert!(!after.finalizer_set);
}

#[test]
fn finalizer_patches_are_the_fixed_merge_documents() {
    assert_eq!(
        add_patch(),
        "{\"metadata\":{\"finalizers\":[\"restic.anshulg.com/finalizer\"]}}"
    );
    assert_eq!(remove_patch(), "{\"metadata\":{\"finalizers\":null}}");

    // Both documents are valid JSON of the expected shape.
    let add: serde_json::Value = serde_json::from_str(&add_patch()).unwrap();
    assert_eq!(add["metadata"]["finalizers"][0], FINALIZER);
    let remove: serde_json::Value = serde_json::from_str(&remove_patch()).unwrap();
    assert!(remove["metadata"]["finalizers"].is_null());
}

#[test]
fn finalizer_application_is_idempotent() {
    // Adding over any prior list yields exactly the marker.
    let fresh = apply_add(None);
    assert_eq!(fresh, Some(vec![FINALIZER.to_string()]));
    let again = apply_add(fresh);
    assert_eq!(again, Some(vec![FINALIZER.to_string()]));

    // Removing over any prior list clears it.
    assert_eq!(apply_remove(again), None);
    assert_eq!(apply_remove(None), None);
}

#[test]
fn labels_are_the_fixed_pair() {
    let labels = Labels::new("my-backup".to_string());
    let pairs = labels.to_labels();
    assert_eq!(
        pairs,
        vec![
            (
                "app.kubernetes.io/name".to_string(),
                "my-backup".to_string()
            ),
            (
                "app.kubernetes.io/managed-by".to_string(),
                "restic-operator".to_string()
            ),
        ]
    );
}

#[test]
fn owner_reference_carries_controller_flags() {
    let owner = OwnerInfo {
        api_version: "restic.anshulg.com/v1alpha1".to_string(),
        kind: "Backup".to_string(),
        name: "test".to_string(),
        uid: Some("uid-1".to_string()),
    };
    let refs = restic_operator::deploy::owner_references(&owner).unwrap();
    assert_eq!(refs.len(), 1);
    assert_eq!(refs[0].api_version, "restic.anshulg.com/v1alpha1");
    assert_eq!(refs[0].kind, "Backup");
    assert_eq!(refs[0].name, "test");
    assert_eq!(refs[0].uid, "uid-1");
    assert_eq!(refs[0].controller, Some(true));
    assert_eq!(refs[0].block_owner_deletion, Some(true));

    // No uid yet: no owner reference can be built.
    let unborn = OwnerInfo {
        uid: None,
        ..owner
    };
    assert!(restic_operator::deploy::owner_references(&unborn).is_none());
}
