//! The request-level entry points around the store: creating a job under a
//! fresh identifier, writing the terminal record when its background
//! execution ends, and retrieving a record by identifier.
use vstd::prelude::*;
use vstd::string::StringExecFns;

use crate::job::initial_log_view;
use crate::job::job_log_for_outcome;
use crate::job::log_view_for_outcome;
use crate::job::JobLog;
use crate::job::JobLogView;
use crate::job::JobOutcome;
use crate::store::JobStore;

verus! {

/// Whether the identifier parser accepts a string. Acceptance is a function
/// of the string alone.
pub uninterp spec fn uuid_accepts(s: Seq<char>) -> bool;

/// Relies on uuid::Uuid::parse_str: whether a string parses as a canonical
/// unique identifier (any of the simple, hyphenated, braced or URN forms)
/// depends on the string alone.
#[verifier::external_body]
fn job_id_parses(s: &str) -> (r: bool)
    ensures
        r == uuid_accepts(s@),
{
    uuid::Uuid::parse_str(s).is_ok()
}

/// Relies on uuid::Uuid::new_v4 and its rendering: a fresh random
/// identifier renders as the 36-character hyphenated form, which
/// uuid::Uuid::parse_str documents it accepts. The value itself is random;
/// nothing more is stated of it.
#[verifier::external_body]
fn fresh_job_id() -> (r: String)
    ensures
        uuid_accepts(r@),
        r@.len() == 36,
{
    uuid::Uuid::new_v4().to_string()
}

/// Create a job: store the running placeholder under a fresh identifier and
/// hand the identifier back. The placeholder is in the store before the
/// identifier is ever visible to a client, so a lookup straight after
/// finds at least `Running`.
pub fn create_job(store: &mut JobStore) -> (job_id: String)
    requires
        old(store).wf(),
    ensures
        final(store).wf(),
        uuid_accepts(job_id@),
        job_id@.len() == 36,
        final(store)@ == old(store)@.insert(job_id@, initial_log_view()),
{
    let job_id = fresh_job_id();
    store.put(job_id.clone(), JobLog::default());
    job_id
}

/// Record how a job's background execution ended: the single terminal write
/// for this identifier, replacing the running placeholder.
pub fn finish_job(store: &mut JobStore, job_id: String, outcome: JobOutcome)
    requires
        old(store).wf(),
    ensures
        final(store).wf(),
        final(store)@ == old(store)@.insert(job_id@, log_view_for_outcome(outcome)),
{
    let log = job_log_for_outcome(outcome);
    store.put(job_id, log);
}

/// Why a log-retrieval request returned no record.
#[derive(Clone, Copy, PartialEq, Eq, Structural, Debug)]
pub enum LogError {
    /// The identifier does not have the canonical shape.
    InvalidJobId,
    /// The identifier is well-formed but no job was created under it.
    NotFound,
}

impl LogError {
    /// The human-readable reason carried by this rejection.
    pub open spec fn message_view(self) -> Seq<char> {
        match self {
            LogError::InvalidJobId => "Invalid job ID format"@,
            LogError::NotFound => "Job not found"@,
        }
    }

    /// Render the rejection reason for the client.
    pub fn message(&self) -> (r: String)
        ensures
            r@ == self.message_view(),
    {
        match self {
            LogError::InvalidJobId => String::from_str("Invalid job ID format"),
            LogError::NotFound => String::from_str("Job not found"),
        }
    }
}

/// What a log-retrieval request returns: the record under the identifier if
/// the identifier is well-formed and a job was created under it, and the
/// fitting rejection otherwise.
pub open spec fn spec_lookup(
    m: Map<Seq<char>, JobLogView>,
    id: Seq<char>,
    id_valid: bool,
) -> Result<JobLogView, LogError> {
    if !id_valid {
        Err(LogError::InvalidJobId)
    } else if m.contains_key(id) {
        Ok(m[id])
    } else {
        Err(LogError::NotFound)
    }
}

/// Retrieve the record under an identifier, the identifier's validity
/// having been decided already. Exactly the well-formed identifiers of
/// created jobs yield a record.
pub fn lookup_job(store: &JobStore, job_id: &String, id_valid: bool) -> (r: Result<
    JobLog,
    LogError,
>)
    requires
        store.wf(),
    ensures
        match r {
            Ok(l) => spec_lookup(store@, job_id@, id_valid) == Ok::<JobLogView, LogError>(l@),
            Err(e) => spec_lookup(store@, job_id@, id_valid) == Err::<JobLogView, LogError>(e),
        },
{
    if !id_valid {
        return Err(LogError::InvalidJobId);
    }
    match store.get(job_id) {
        Some(l) => Ok(l.clone()),
        None => Err(LogError::NotFound),
    }
}

/// Retrieve the record under a client-supplied identifier: reject an
/// identifier without the canonical shape, answer "not found" for a
/// well-formed identifier no job was created under, and hand back the
/// current record otherwise.
pub fn get_logs(store: &JobStore, job_id: &String) -> (r: Result<JobLog, LogError>)
    requires
        store.wf(),
    ensures
        match r {
            Ok(l) => spec_lookup(store@, job_id@, uuid_accepts(job_id@)) == Ok::<
                JobLogView,
                LogError,
            >(l@),
            Err(e) => spec_lookup(store@, job_id@, uuid_accepts(job_id@)) == Err::<
                JobLogView,
                LogError,
            >(e),
        },
{
    let id_valid = job_id_parses(job_id.as_str());
    lookup_job(store, job_id, id_valid)
}

} // verus!
