//! The guarantees that relate the store's writers to its readers: what a
//! client sees straight after provisioning, that background writes are
//! terminal, and that reads are stable once the terminal record is in.
use vstd::prelude::*;

use crate::job::initial_log_view;
use crate::job::log_view_for_outcome;
use crate::job::JobLogView;
use crate::job::JobOutcome;
use crate::job::JobStatus;
use crate::service::spec_lookup;
use crate::service::LogError;

verus! {

/// Straight after a job is provisioned — its running placeholder inserted
/// under a well-formed identifier — retrieving its record yields exactly
/// the placeholder, whose status is `Running`.
pub proof fn lemma_provisioned_job_reads_running(
    m: Map<Seq<char>, JobLogView>,
    id: Seq<char>,
    id_valid: bool,
)
    requires
        id_valid,
    ensures
        spec_lookup(m.insert(id, initial_log_view()), id, id_valid) == Ok::<JobLogView, LogError>(
            initial_log_view(),
        ),
        initial_log_view().status == JobStatus::Running,
{
}

/// Every record the background execution writes is terminal: whatever the
/// outcome, the job leaves `Running` in that single write and never returns
/// to it.
pub proof fn lemma_outcome_record_is_terminal(o: JobOutcome)
    ensures
        log_view_for_outcome(o).status.is_terminal(),
{
}

/// A read returns the record most recently written under the identifier.
/// Reads do not change the store, so as long as nothing is written under
/// the identifier, repeated reads yield this same record.
pub proof fn lemma_lookup_after_put(
    m: Map<Seq<char>, JobLogView>,
    id: Seq<char>,
    log: JobLogView,
    id_valid: bool,
)
    requires
        id_valid,
    ensures
        spec_lookup(m.insert(id, log), id, id_valid) == Ok::<JobLogView, LogError>(log),
{
}

/// A write under one identifier leaves what is read under any other
/// identifier untouched: once a job's terminal record is in, other jobs'
/// writes never disturb it.
pub proof fn lemma_unrelated_put_preserves_lookup(
    m: Map<Seq<char>, JobLogView>,
    id: Seq<char>,
    other: Seq<char>,
    log: JobLogView,
    id_valid: bool,
)
    requires
        other != id,
    ensures
        spec_lookup(m.insert(other, log), id, id_valid) == spec_lookup(m, id, id_valid),
{
}

} // verus!
