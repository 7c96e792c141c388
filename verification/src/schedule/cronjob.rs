//! The recurring (cron) job dependent of a `ScheduledBackup`.

use vstd::prelude::*;

use crate::crd::ScheduledBackup;
use crate::deploy::{dependent_meta, spec_dependent_meta, Labels, OwnerInfo};
use crate::jobspec::{spec_job_manifest, spec_job_spec, BackupJobSpec};
use crate::k8s::{spec_name_any, CronJob, CronJobSpec, JobTemplateSpec};

verus! {

/// The cron-job dependent: its deterministic name, its namespace, the
/// composed execution template, and the scheduling fields passed through
/// unchanged from the spec.
#[derive(Debug, Clone, PartialEq, Eq)]
pub struct BackupCronJob {
    pub name: String,
    pub ns: String,
    pub spec: BackupJobSpec,
    /// The schedule, in cron format.
    pub schedule: String,
    /// How concurrent executions of the job are treated.
    pub concurrency_policy: Option<String>,
    pub failed_jobs_history_limit: Option<i32>,
    pub starting_deadline_seconds: Option<i64>,
    pub successful_jobs_history_limit: Option<i32>,
    /// Suspends subsequent executions when set.
    pub suspend: Option<bool>,
    /// Time zone name the schedule is evaluated in.
    pub time_zone: Option<String>,
}

impl BackupCronJob {
    /// Composes the cron job for a scheduled backup: named
    /// `<name>-cronjob` after the parent, with the execution template
    /// built from the embedded backup spec and every scheduling field
    /// copied through unchanged.
    pub fn new(ns: String, backup: &ScheduledBackup, config_name: String) -> (r: BackupCronJob)
        ensures
            r.ns == ns,
            r.name@ == spec_name_any(backup.metadata) + "-cronjob"@,
            spec_job_spec(backup.spec.backup, config_name@, r.spec),
            r.schedule == backup.spec.schedule,
            r.concurrency_policy == backup.spec.concurrency_policy,
            r.failed_jobs_history_limit == backup.spec.failed_jobs_history_limit,
            r.starting_deadline_seconds == backup.spec.starting_deadline_seconds,
            r.successful_jobs_history_limit == backup.spec.successful_jobs_history_limit,
            r.suspend == backup.spec.suspend,
            r.time_zone == backup.spec.time_zone,
    {
        let spec = BackupJobSpec::new(&backup.spec.backup, config_name);
        let mut name = backup.metadata.name_any();
        name.append("-cronjob");
        BackupCronJob {
            name,
            ns,
            spec,
            schedule: backup.spec.schedule.clone(),
            concurrency_policy: match &backup.spec.concurrency_policy {
                Option::None => None,
                Option::Some(s) => Some(s.clone()),
            },
            failed_jobs_history_limit: backup.spec.failed_jobs_history_limit,
            starting_deadline_seconds: backup.spec.starting_deadline_seconds,
            successful_jobs_history_limit: backup.spec.successful_jobs_history_limit,
            suspend: backup.spec.suspend,
            time_zone: match &backup.spec.time_zone {
                Option::None => None,
                Option::Some(s) => Some(s.clone()),
            },
        }
    }

    /// The cron-job manifest this dependent is submitted as: dependent
    /// metadata with owner linkage and labels, the scheduling fields
    /// unchanged, and the one-shot job specification as the job template.
    pub fn to_cron_job(&self, owner: &OwnerInfo, labels: &Labels) -> (r: CronJob)
        ensures
            spec_dependent_meta(self.name, self.ns, *labels, *owner, r.metadata),
            r.spec matches Option::Some(cjs) && {
                &&& cjs.concurrency_policy == self.concurrency_policy
                &&& cjs.failed_jobs_history_limit == self.failed_jobs_history_limit
                &&& cjs.job_template.metadata is None
                &&& cjs.job_template.spec matches Option::Some(js) && spec_job_manifest(
                    self.spec,
                    js,
                )
                &&& cjs.schedule == self.schedule
                &&& cjs.starting_deadline_seconds == self.starting_deadline_seconds
                &&& cjs.successful_jobs_history_limit == self.successful_jobs_history_limit
                &&& cjs.suspend == self.suspend
                &&& cjs.time_zone == self.time_zone
            },
    {
        CronJob {
            metadata: dependent_meta(self.name.clone(), self.ns.clone(), labels, owner),
            spec: Some(
                CronJobSpec {
                    concurrency_policy: match &self.concurrency_policy {
                        Option::None => None,
                        Option::Some(s) => Some(s.clone()),
                    },
                    failed_jobs_history_limit: self.failed_jobs_history_limit,
                    job_template: JobTemplateSpec {
                        metadata: None,
                        spec: Some(self.spec.to_job_spec()),
                    },
                    schedule: self.schedule.clone(),
                    starting_deadline_seconds: self.starting_deadline_seconds,
                    successful_jobs_history_limit: self.successful_jobs_history_limit,
                    suspend: self.suspend,
                    time_zone: match &self.time_zone {
                        Option::None => None,
                        Option::Some(s) => Some(s.clone()),
                    },
                },
            ),
        }
    }
}

} // verus!
