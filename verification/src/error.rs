use vstd::prelude::*;

verus! {

/// Errors surfaced by a reconcile attempt. No error is fatal to the
/// controller process: the caller logs it and schedules a short requeue.
///
/// Encoding the configuration document cannot fail here — rendering is a
/// total, verified function — so the cluster API and a missing namespace
/// are the only error sources left.
#[derive(Debug, Clone, PartialEq, Eq)]
pub enum Error {
    /// A non-404 failure reported by the cluster API; the message carries
    /// the context the caller wants to log.
    KubeError { message: String },
    /// The observed resource carries no namespace; retrying cannot help
    /// until the cluster state changes.
    MissingNamespace,
}

impl Error {
    /// The class of the error, ignoring the carried message: two errors of
    /// the same variant call for the same handling.
    pub open spec fn is_kube(&self) -> bool {
        self matches Error::KubeError { .. }
    }
}

} // verus!
