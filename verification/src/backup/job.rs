//! The one-shot job dependent of a `Backup`.

use vstd::prelude::*;

use crate::crd::Backup;
use crate::deploy::{dependent_meta, spec_dependent_meta, Labels, OwnerInfo};
use crate::jobspec::{spec_job_manifest, spec_job_spec, BackupJobSpec};
use crate::k8s::{spec_name_any, Job};

verus! {

/// The job dependent: its deterministic name, its namespace, and the
/// composed execution template.
#[derive(Debug, Clone, PartialEq, Eq)]
pub struct BackupJob {
    pub name: String,
    pub ns: String,
    pub spec: BackupJobSpec,
}

impl BackupJob {
    /// Composes the job for a backup: named `<name>-job` after the parent,
    /// with the execution template built from the backup spec and the
    /// configuration artifact's name.
    pub fn new(ns: String, backup: &Backup, config_name: String) -> (r: BackupJob)
        ensures
            r.ns == ns,
            r.name@ == spec_name_any(backup.metadata) + "-job"@,
            spec_job_spec(backup.spec, config_name@, r.spec),
    {
        let spec = BackupJobSpec::new(&backup.spec, config_name);
        let mut name = backup.metadata.name_any();
        name.append("-job");
        BackupJob { name, ns, spec }
    }

    /// The job manifest this dependent is submitted as: dependent metadata
    /// with owner linkage and labels around the one-shot job specification.
    pub fn to_job(&self, owner: &OwnerInfo, labels: &Labels) -> (r: Job)
        ensures
            spec_dependent_meta(self.name, self.ns, *labels, *owner, r.metadata),
            r.spec matches Option::Some(js) && spec_job_manifest(self.spec, js),
    {
        Job {
            metadata: dependent_meta(self.name.clone(), self.ns.clone(), labels, owner),
            spec: Some(self.spec.to_job_spec()),
        }
    }
}

} // verus!
