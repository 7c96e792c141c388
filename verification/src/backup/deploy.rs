//! The dependent set of a `Backup`: the configuration artifact and the
//! one-shot job, composed together.

use vstd::prelude::*;

use crate::backup::job::BackupJob;
use crate::crd::Backup;
use crate::jobspec::spec_job_spec;
use crate::k8s::spec_name_any;
use crate::resticprofile::{spec_config, ResticProfile};

verus! {

/// Both dependents of one `Backup`, ready to submit: the artifact first,
/// the job second — the job mounts the artifact by name.
#[derive(Debug, Clone, PartialEq, Eq)]
pub struct BackupDeployment {
    pub profile: ResticProfile,
    pub job: BackupJob,
}

impl BackupDeployment {
    /// Composes both dependents from the observed resource. The job's
    /// execution template references the artifact by its deterministic
    /// name.
    pub fn new(ns: String, backup: &Backup) -> (r: BackupDeployment)
        ensures
            r.profile.ns == ns,
            r.job.ns == ns,
            r.profile.name@ == spec_name_any(backup.metadata) + "-profile"@,
            spec_config(spec_name_any(backup.metadata), backup.spec, r.profile.config),
            r.job.name@ == spec_name_any(backup.metadata) + "-job"@,
            spec_job_spec(backup.spec, r.profile.name@, r.job.spec),
    {
        let profile = ResticProfile::new(ns.clone(), backup.metadata.name_any(), &backup.spec);
        let config_name = String::from_str(profile.name());
        let job = BackupJob::new(ns, backup, config_name);
        BackupDeployment { profile, job }
    }
}

} // verus!
