//! The composed dependent set: deterministic names, owner linkage, and
//! the manifests handed to the cluster.

use restic_operator::backup::deploy::BackupDeployment;
use restic_operator::crd::{
    Backup, BackupSpec, Compression, Repository, RepositoryType, RestCredentials, ResticConfig,
    ScheduledBackup, ScheduledBackupSpec,
};
use restic_operator::deploy::{Labels, OwnerInfo};
use restic_operator::k8s::{ObjectMeta, SecretKeySelector};
use restic_operator::schedule::deploy::ScheduledBackupDeployment;

fn selector(name: &str, key: &str) -> SecretKeySelector {
    SecretKeySelector {
        name: name.to_string(),
        key: key.to_string(),
        optional: None,
    }
}

fn rest_spec_with_credentials() -> BackupSpec {
    BackupSpec {
        restic: ResticConfig {
            repository: Repository {
                repository_type: RepositoryType::Rest,
                uri: "https://example.com".to_string(),
                password: selector("restic-password", "password.txt"),
                rest_credentials: Some(RestCredentials {
                    username: selector("restic-secret", "username"),
                    password: selector("restic-secret", "password"),
                }),
            },
            compression: Compression::Auto,
            pack_size: None,
            retention: None,
            backup: None,
        },
        restic_profile: None,
        volume: None,
    }
}

fn named_meta(name: &str) -> ObjectMeta {
    ObjectMeta {
        name: Some(name.to_string()),
        namespace: Some("default".to_string()),
        uid: Some("uid-1".to_string()),
        labels: None,
        owner_references: None,
        finalizers: None,
        deletion_timestamp: None,
    }
}

fn owner() -> OwnerInfo {
    OwnerInfo {
        api_version: "restic.anshulg.com/v1alpha1".to_string(),
        kind: "Backup".to_string(),
        name: "scenario".to_string(),
        uid: Some("uid-1".to_string()),
    }
}

#[test]
fn scenario_rest_credentials_compose_full_dependent_set() {
    // REST repository with credentials, no retention, no extra volumes:
    // the job side resolves the default image tagged latest and carries
    // exactly the synthesized pair of env vars and the two fixed
    // mounts/volumes.
    let backup = Backup {
        metadata: named_meta("scenario"),
        spec: rest_spec_with_credentials(),
        status: None,
    };
    let deployment = BackupDeployment::new("default".to_string(), &backup);

    assert_eq!(deployment.profile.name(), "scenario-profile");
    assert_eq!(deployment.job.name, "scenario-job");

    let profile = &deployment.profile.config.profiles[0];
    assert_eq!(profile.0, "default");
    assert_eq!(
        profile.1.repository.as_deref(),
        Some("rest:https://example.com")
    );
    assert_eq!(
        profile.1.password_file.as_deref(),
        Some("/resticprofile/password.txt")
    );
    assert_eq!(profile.1.compression.as_deref(), Some("auto"));
    assert!(profile.1.backup.is_none());
    assert!(profile.1.retention.is_none());

    let job = &deployment.job.spec;
    assert_eq!(job.image, "creativeprojects/resticprofile:latest");
    assert_eq!(job.env.len(), 2);
    assert_eq!(job.volume_mounts.len(), 2);
    assert_eq!(job.volumes.len(), 2);
    // The job mounts the artifact by its deterministic name.
    assert_eq!(
        job.volumes[0].config_map.as_ref().unwrap().name,
        "scenario-profile"
    );
}

#[test]
fn config_map_carries_labels_owner_and_rendered_document() {
    let backup = Backup {
        metadata: named_meta("scenario"),
        spec: rest_spec_with_credentials(),
        status: None,
    };
    let deployment = BackupDeployment::new("default".to_string(), &backup);
    let labels = Labels::new("scenario".to_string());
    let cm = deployment.profile.to_config_map(&owner(), &labels);

    assert_eq!(cm.metadata.name.as_deref(), Some("scenario-profile"));
    assert_eq!(cm.metadata.namespace.as_deref(), Some("default"));
    let pairs = cm.metadata.labels.unwrap();
    assert_eq!(pairs[0].0, "app.kubernetes.io/name");
    assert_eq!(pairs[0].1, "scenario");
    assert_eq!(pairs[1].0, "app.kubernetes.io/managed-by");
    assert_eq!(pairs[1].1, "restic-operator");
    let refs = cm.metadata.owner_references.unwrap();
    assert_eq!(refs[0].name, "scenario");
    assert_eq!(refs[0].controller, Some(true));

    let data = cm.data.unwrap();
    assert_eq!(data.len(), 1);
    assert_eq!(data[0].0, "profiles.toml");
    assert!(data[0].1.starts_with("version = \"1\"\n"));
    assert!(data[0].1.contains("repository = \"rest:https://example.com\""));
}

#[test]
fn job_manifest_links_owner_and_template() {
    let backup = Backup {
        metadata: named_meta("scenario"),
        spec: rest_spec_with_credentials(),
        status: None,
    };
    let deployment = BackupDeployment::new("default".to_string(), &backup);
    let labels = Labels::new("scenario".to_string());
    let job = deployment.job.to_job(&owner(), &labels);

    assert_eq!(job.metadata.name.as_deref(), Some("scenario-job"));
    assert_eq!(job.metadata.namespace.as_deref(), Some("default"));
    assert_eq!(job.metadata.owner_references.unwrap()[0].uid, "uid-1");
    let spec = job.spec.unwrap();
    assert_eq!(spec.suspend, Some(false));
    let pod = spec.template.spec.unwrap();
    assert_eq!(pod.containers[0].env.as_ref().unwrap().len(), 2);
}

#[test]
fn scheduled_deployment_passes_schedule_through() {
    let scheduled = ScheduledBackup {
        metadata: named_meta("nightly"),
        spec: ScheduledBackupSpec {
            schedule: "0 2 * * *".to_string(),
            backup: rest_spec_with_credentials(),
            concurrency_policy: Some("Forbid".to_string()),
            failed_jobs_history_limit: Some(1),
            starting_deadline_seconds: Some(300),
            successful_jobs_history_limit: Some(3),
            suspend: Some(false),
            time_zone: Some("Etc/UTC".to_string()),
        },
        status: None,
    };
    let deployment = ScheduledBackupDeployment::new("default".to_string(), &scheduled);

    assert_eq!(deployment.profile.name(), "nightly-profile");
    assert_eq!(deployment.job.name, "nightly-cronjob");
    assert_eq!(deployment.job.schedule, "0 2 * * *");

    let labels = Labels::new("nightly".to_string());
    let cron = deployment.job.to_cron_job(&owner(), &labels);
    assert_eq!(cron.metadata.name.as_deref(), Some("nightly-cronjob"));
    let spec = cron.spec.unwrap();
    assert_eq!(spec.schedule, "0 2 * * *");
    assert_eq!(spec.concurrency_policy.as_deref(), Some("Forbid"));
    assert_eq!(spec.failed_jobs_history_limit, Some(1));
    assert_eq!(spec.starting_deadline_seconds, Some(300));
    assert_eq!(spec.successful_jobs_history_limit, Some(3));
    assert_eq!(spec.suspend, Some(false));
    assert_eq!(spec.time_zone.as_deref(), Some("Etc/UTC"));
    // The embedded job template mounts the artifact by name.
    let pod = spec.job_template.spec.unwrap().template.spec.unwrap();
    assert_eq!(
        pod.volumes.as_ref().unwrap()[0]
            .config_map
            .as_ref()
            .unwrap()
            .name,
        "nightly-profile"
    );
}
