//! The execution-template composer: image resolution, credential env
//! synthesis, and volume/mount assembly.

use restic_operator::crd::{
    BackupSpec, Compression, Repository, RepositoryType, RestCredentials, ResticConfig,
    ResticProfileConfig, VolumeBackup,
};
use restic_operator::jobspec::{fill_env, fill_volume_mounts, BackupJobSpec};
use restic_operator::k8s::{SecretKeySelector, Volume, VolumeMount};

const CONFIG_NAME: &str = "test-config";

fn selector(name: &str, key: &str) -> SecretKeySelector {
    SecretKeySelector {
        name: name.to_string(),
        key: key.to_string(),
        optional: None,
    }
}

fn create_backup() -> BackupSpec {
    BackupSpec {
        restic: ResticConfig {
            repository: Repository {
                repository_type: RepositoryType::Rest,
                uri: "https://example.com".to_string(),
                rest_credentials: Some(RestCredentials {
                    username: selector("restic-secret", "username"),
                    password: selector("restic-secret", "password"),
                }),
                password: selector("restic-password", "password.txt"),
            },
            compression: Compression::Auto,
            pack_size: None,
            retention: None,
            backup: None,
        },
        volume: None,
        restic_profile: Some(ResticProfileConfig {
            image: Some("custom/restic:latest".to_string()),
            version: Some("v1.0.0".to_string()),
            ..ResticProfileConfig::empty()
        }),
    }
}

#[test]
fn test_jobspec_new() {
    let backup = create_backup();
    let job_spec = BackupJobSpec::new(&backup, CONFIG_NAME.to_string());

    assert_eq!(job_spec.image, "custom/restic:latest");
    assert_eq!(job_spec.env.len(), 2);
    assert_eq!(job_spec.volume_mounts.len(), 2);
    assert_eq!(job_spec.volumes.len(), 2);
}

#[test]
fn test_default_image() {
    let mut backup = create_backup();
    backup.restic_profile.as_mut().unwrap().image = None;
    let job = BackupJobSpec::new(&backup, CONFIG_NAME.to_string());

    assert_eq!(job.image, "creativeprojects/resticprofile:v1.0.0");
}

#[test]
fn test_default_image_tag() {
    let mut backup = create_backup();
    backup.restic_profile.as_mut().unwrap().image = None;
    backup.restic_profile.as_mut().unwrap().version = None;
    let job = BackupJobSpec::new(&backup, CONFIG_NAME.to_string());

    assert_eq!(job.image, "creativeprojects/resticprofile:latest");
}

#[test]
fn test_fill_env_with_no_credentials() {
    let mut backup = create_backup();
    backup.restic.repository.rest_credentials = None;
    let rpcfg = backup.restic_profile.clone().unwrap();
    let env = fill_env(&backup, &rpcfg);

    assert!(env.is_empty());
}

#[test]
fn test_fill_volume_mounts_with_no_volume() {
    let backup = create_backup();
    let config_name = "test-config";
    let (volume_mounts, volumes) = fill_volume_mounts(&backup, config_name.to_string());

    assert_eq!(volume_mounts.len(), 2);
    assert_eq!(volumes.len(), 2);
}

#[test]
fn test_fill_volume_mounts_with_volume() {
    let mut backup = create_backup();
    backup.volume = Some(VolumeBackup {
        mounts: vec![VolumeMount {
            mount_path: "/data".to_string(),
            name: "data-volume".to_string(),
            sub_path: None,
            read_only: None,
            other: None,
        }],
        volumes: vec![Volume {
            name: "data-volume".to_string(),
            config_map: None,
            secret: None,
            other: None,
        }],
    });
    let config_name = "test-config";
    let (volume_mounts, volumes) = fill_volume_mounts(&backup, config_name.to_string());

    assert_eq!(volume_mounts.len(), 3);
    assert_eq!(volumes.len(), 3);
}

#[test]
fn credential_env_vars_reference_the_given_selectors() {
    let backup = create_backup();
    let rpcfg = ResticProfileConfig::empty();
    let env = fill_env(&backup, &rpcfg);

    assert_eq!(env.len(), 2);
    assert_eq!(env[0].name, "RESTIC_REST_USERNAME");
    assert_eq!(env[1].name, "RESTIC_REST_PASSWORD");
    let user_ref = env[0].value_from.as_ref().unwrap().secret_key_ref.as_ref().unwrap();
    assert_eq!(user_ref.name, "restic-secret");
    assert_eq!(user_ref.key, "username");
    let pass_ref = env[1].value_from.as_ref().unwrap().secret_key_ref.as_ref().unwrap();
    assert_eq!(pass_ref.name, "restic-secret");
    assert_eq!(pass_ref.key, "password");
}

#[test]
fn user_env_vars_keep_their_place_before_synthesized_ones() {
    let backup = create_backup();
    let rpcfg = ResticProfileConfig {
        env: Some(vec![restic_operator::k8s::EnvVar {
            name: "RESTIC_REST_USERNAME".to_string(),
            value: Some("user-declared".to_string()),
            value_from: None,
        }]),
        ..ResticProfileConfig::empty()
    };
    let env = fill_env(&backup, &rpcfg);

    // The user-declared variable stays first; the synthesized pair is
    // appended, never replacing it.
    assert_eq!(env.len(), 3);
    assert_eq!(env[0].name, "RESTIC_REST_USERNAME");
    assert_eq!(env[0].value.as_deref(), Some("user-declared"));
    assert_eq!(env[1].name, "RESTIC_REST_USERNAME");
    assert_eq!(env[2].name, "RESTIC_REST_PASSWORD");
}

#[test]
fn fixed_mounts_target_config_and_password_paths() {
    let backup = create_backup();
    let (mounts, volumes) = fill_volume_mounts(&backup, CONFIG_NAME.to_string());

    assert_eq!(mounts[0].name, "profile");
    assert_eq!(mounts[0].mount_path, "/resticprofile/profiles.toml");
    assert_eq!(mounts[0].sub_path.as_deref(), Some("profiles.toml"));
    assert_eq!(mounts[1].name, "restic-password");
    assert_eq!(mounts[1].mount_path, "/resticprofile/password.txt");
    assert_eq!(mounts[1].sub_path.as_deref(), Some("password.txt"));

    assert_eq!(volumes[0].name, "profile");
    assert_eq!(
        volumes[0].config_map.as_ref().unwrap().name,
        CONFIG_NAME
    );
    assert_eq!(volumes[1].name, "restic-password");
    assert_eq!(
        volumes[1].secret.as_ref().unwrap().secret_name.as_deref(),
        Some("restic-password")
    );
}

#[test]
fn job_manifest_has_one_container_restarting_on_failure() {
    let backup = create_backup();
    let job_spec = BackupJobSpec::new(&backup, CONFIG_NAME.to_string());
    let manifest = job_spec.to_job_spec();

    assert_eq!(manifest.suspend, Some(false));
    let pod = manifest.template.spec.unwrap();
    assert_eq!(pod.containers.len(), 1);
    assert_eq!(pod.containers[0].name, "restic-backup");
    assert_eq!(pod.containers[0].image.as_deref(), Some("custom/restic:latest"));
    assert_eq!(pod.restart_policy.as_deref(), Some("OnFailure"));
    assert_eq!(pod.volumes.as_ref().unwrap().len(), 2);
}
