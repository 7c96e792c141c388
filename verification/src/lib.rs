//! Reconciliation core of a Kubernetes operator that turns two declarative
//! custom resources — a one-shot `Backup` and a recurring `ScheduledBackup` —
//! into running backup jobs.
//!
//! The library holds the verified logic: the per-reconcile action state
//! machine with finalizer-guarded teardown, the composition of the
//! resticprofile configuration artifact and of the job/cron-job execution
//! templates, and the rendering of the configuration document. All cluster
//! I/O lives outside the library; callers hand in plain values observed from
//! the cluster and submit the manifests the library composes.

pub mod backup;
pub mod crd;
pub mod deploy;
pub mod error;
pub mod finalizer;
pub mod jobspec;
pub mod k8s;
pub mod resticprofile;
pub mod schedule;
pub mod text;
