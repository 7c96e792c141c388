//! The dependent set of a `ScheduledBackup`: the configuration artifact
//! and the recurring job, composed together.

use vstd::prelude::*;

use crate::crd::ScheduledBackup;
use crate::jobspec::spec_job_spec;
use crate::k8s::spec_name_any;
use crate::resticprofile::{spec_config, ResticProfile};
use crate::schedule::cronjob::BackupCronJob;

verus! {

/// Both dependents of one `ScheduledBackup`, ready to submit: the
/// artifact first, the cron job second — the cron job mounts the
/// artifact by name.
#[derive(Debug, Clone, PartialEq, Eq)]
pub struct ScheduledBackupDeployment {
    pub profile: ResticProfile,
    pub job: BackupCronJob,
}

impl ScheduledBackupDeployment {
    /// Composes both dependents from the observed resource. The cron
    /// job's execution template references the artifact by its
    /// deterministic name.
    pub fn new(ns: String, backup: &ScheduledBackup) -> (r: ScheduledBackupDeployment)
        ensures
            r.profile.ns == ns,
            r.job.ns == ns,
            r.profile.name@ == spec_name_any(backup.metadata) + "-profile"@,
            spec_config(spec_name_any(backup.metadata), backup.spec.backup, r.profile.config),
            r.job.name@ == spec_name_any(backup.metadata) + "-cronjob"@,
            spec_job_spec(backup.spec.backup, r.profile.name@, r.job.spec),
            r.job.schedule == backup.spec.schedule,
    {
        let profile = ResticProfile::new(
            ns.clone(),
            backup.metadata.name_any(),
            &backup.spec.backup,
        );
        let config_name = String::from_str(profile.name());
        let job = BackupCronJob::new(ns, backup, config_name);
        ScheduledBackupDeployment { profile, job }
    }
}

} // verus!
