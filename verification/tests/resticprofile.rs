//! The configuration-artifact composer: source-path extraction and
//! document derivation.

use restic_operator::crd::{
    Backup, BackupOptions, BackupSpec, Compression, Repository, RepositoryType, RestCredentials,
    ResticConfig, Retention,
};
use restic_operator::k8s::{ObjectMeta, SecretKeySelector, Volume, VolumeMount};
use restic_operator::resticprofile::{create_config, extract_paths, ResticProfile};
use restic_operator::resticprofile::render::render_config;

fn selector(name: &str, key: &str) -> SecretKeySelector {
    SecretKeySelector {
        name: name.to_string(),
        key: key.to_string(),
        optional: None,
    }
}

fn rest_spec(credentials: bool) -> BackupSpec {
    BackupSpec {
        restic: ResticConfig {
            repository: Repository {
                repository_type: RepositoryType::Rest,
                uri: "https://example.com".to_string(),
                password: selector("restic-password", "password.txt"),
                rest_credentials: if credentials {
                    Some(RestCredentials {
                        username: selector("restic-secret", "username"),
                        password: selector("restic-secret", "password"),
                    })
                } else {
                    None
                },
            },
            compression: Compression::Auto,
            pack_size: None,
            retention: None,
            backup: None,
        },
        restic_profile: None,
        volume: None,
    }
}

fn named_meta(name: &str) -> ObjectMeta {
    ObjectMeta {
        name: Some(name.to_string()),
        namespace: Some("default".to_string()),
        uid: None,
        labels: None,
        owner_references: None,
        finalizers: None,
        deletion_timestamp: None,
    }
}

#[test]
fn test_extract_paths() {
    let mut spec = rest_spec(false);
    spec.volume = Some(restic_operator::crd::VolumeBackup {
        mounts: vec![VolumeMount {
            mount_path: "/mnt/data".to_owned(),
            name: String::new(),
            sub_path: None,
            read_only: None,
            other: None,
        }],
        volumes: Vec::new(),
    });
    let backup = Backup {
        metadata: named_meta("test"),
        spec,
        status: None,
    };

    let paths = extract_paths(&backup.spec);
    assert_eq!(paths, vec!["/mnt/data".to_owned()]);
}

#[test]
fn scenario_rest_repository_without_sections() {
    // REST repository with credentials, no retention, no extra volumes:
    // one profile named `default`, the type-prefixed URI, the fixed
    // password file, compression `auto`, and no command sections.
    let spec = rest_spec(true);
    let config = create_config("scenario".to_string(), &spec);

    assert_eq!(config.profiles.len(), 1);
    assert_eq!(config.profiles[0].0, "default");
    let profile = &config.profiles[0].1;
    assert_eq!(profile.repository.as_deref(), Some("rest:https://example.com"));
    assert_eq!(
        profile.password_file.as_deref(),
        Some("/resticprofile/password.txt")
    );
    assert_eq!(profile.compression.as_deref(), Some("auto"));
    assert!(profile.backup.is_none());
    assert!(profile.retention.is_none());
    assert!(config.global.is_none());

    let text = render_config(&config);
    assert_eq!(
        text,
        r#"version = "1"

[default]
compression = "auto"
password-file = "/resticprofile/password.txt"
repository = "rest:https://example.com"
"#
    );
}

#[test]
fn backup_options_become_a_backup_section_with_host() {
    let mut spec = rest_spec(false);
    spec.restic.backup = Some(BackupOptions {
        exclude: Some(vec!["*.log".to_string()]),
        exclude_caches: true,
        exclude_if_present: None,
        exclude_larger_than: Some("1G".to_string()),
        iexclude: None,
        tag: Some(vec!["nightly".to_string()]),
    });
    spec.volume = Some(restic_operator::crd::VolumeBackup {
        mounts: vec![VolumeMount {
            mount_path: "/opt".to_string(),
            name: "opt".to_string(),
            sub_path: None,
            read_only: None,
            other: None,
        }],
        volumes: vec![Volume {
            name: "opt".to_string(),
            config_map: None,
            secret: None,
            other: None,
        }],
    });

    let config = create_config("parent".to_string(), &spec);
    let section = config.profiles[0].1.backup.as_ref().unwrap();
    assert_eq!(section.source, vec!["/opt".to_string()]);
    assert_eq!(section.exclude, vec!["*.log".to_string()]);
    assert!(section.exclude_caches);
    assert!(section.exclude_if_present.is_empty());
    assert_eq!(section.exclude_larger_than.as_deref(), Some("1G"));
    assert_eq!(section.host.as_deref(), Some("parent"));
    assert!(section.iexclude.is_empty());
    assert_eq!(section.tag, vec!["nightly".to_string()]);
}

#[test]
fn retention_policy_becomes_a_retention_section() {
    let mut spec = rest_spec(false);
    spec.restic.retention = Some(Retention {
        after_backup: true,
        before_backup: false,
        keep_last: Some(7),
        keep_hourly: None,
        keep_daily: Some(30),
        keep_weekly: None,
        keep_monthly: None,
        keep_yearly: None,
        prune: true,
    });

    let config = create_config("parent".to_string(), &spec);
    let section = config.profiles[0].1.retention.unwrap();
    assert!(section.after_backup);
    assert!(!section.before_backup);
    assert!(!section.host);
    assert_eq!(section.keep_last, Some(7));
    assert_eq!(section.keep_daily, Some(30));
    assert!(section.prune);
}

#[test]
fn profile_dependent_is_named_after_the_parent() {
    let spec = rest_spec(false);
    let profile = ResticProfile::new("default".to_string(), "parent".to_string(), &spec);
    assert_eq!(profile.name(), "parent-profile");
    assert_eq!(profile.ns, "default");
}

#[test]
fn compression_modes_render_to_their_words() {
    assert_eq!(Compression::Off.as_str(), "off");
    assert_eq!(Compression::Auto.as_str(), "auto");
    assert_eq!(Compression::Max.as_str(), "max");

    let mut spec = rest_spec(false);
    spec.restic.compression = Compression::Max;
    let config = create_config("parent".to_string(), &spec);
    assert_eq!(config.profiles[0].1.compression.as_deref(), Some("max"));
}

#[test]
fn full_uri_is_type_prefixed() {
    let spec = rest_spec(false);
    assert_eq!(spec.restic.repository.full_uri(), "rest:https://example.com");
}
