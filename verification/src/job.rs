//! The lifecycle of one job: its status, the record kept of it, and how the
//! outcome of the background execution is turned into the single terminal
//! record.
use vstd::prelude::*;
use vstd::string::StringExecFns;

use crate::validate::arg_is_bad;
use crate::validate::args_acceptable;

verus! {

/// The lifecycle state of one job. `Running` is the only non-terminal state.
#[derive(Clone, Copy, PartialEq, Eq, Structural, Debug)]
pub enum JobStatus {
    Running,
    Completed,
    Failed,
    TimedOut,
}

impl JobStatus {
    /// A terminal state is absorbing: once a record carries one, the record
    /// is never mutated again.
    pub open spec fn is_terminal(self) -> bool {
        self != JobStatus::Running
    }
}

/// The record kept of one job: its status, the captured output, the exit
/// code once the process has exited, and a harness-side error message when
/// the failure did not come from the script itself.
#[derive(Debug)]
pub struct JobLog {
    pub status: JobStatus,
    pub stdout: String,
    pub stderr: String,
    pub exit_code: Option<i32>,
    pub error_message: Option<String>,
}

/// The mathematical shape of a job record.
#[verifier::ext_equal]
pub struct JobLogView {
    pub status: JobStatus,
    pub stdout: Seq<char>,
    pub stderr: Seq<char>,
    pub exit_code: Option<i32>,
    pub error_message: Option<Seq<char>>,
}

impl View for JobLog {
    type V = JobLogView;

    open spec fn view(&self) -> JobLogView {
        JobLogView {
            status: self.status,
            stdout: self.stdout@,
            stderr: self.stderr@,
            exit_code: self.exit_code,
            error_message: match self.error_message {
                Some(ref m) => Some(m@),
                None => None,
            },
        }
    }
}

impl Clone for JobLog {
    /// A clone reads back as the same record.
    fn clone(&self) -> (r: Self)
        ensures
            r@ == self@,
    {
        let r = JobLog {
            status: self.status,
            stdout: self.stdout.clone(),
            stderr: self.stderr.clone(),
            exit_code: self.exit_code,
            error_message: match &self.error_message {
                Some(m) => Some(m.clone()),
                None => None,
            },
        };
        proof {
            assert(r@ =~= self@);
        }
        r
    }
}

/// The placeholder record stored when a job is created, before the
/// background execution has reported anything.
pub open spec fn initial_log_view() -> JobLogView {
    JobLogView {
        status: JobStatus::Running,
        stdout: Seq::<char>::empty(),
        stderr: Seq::<char>::empty(),
        exit_code: None,
        error_message: None,
    }
}

impl Default for JobLog {
    /// A fresh record: running, with nothing captured yet.
    fn default() -> (r: Self)
        ensures
            r@ == initial_log_view(),
    {
        let r = JobLog {
            status: JobStatus::Running,
            stdout: String::new(),
            stderr: String::new(),
            exit_code: None,
            error_message: None,
        };
        proof {
            assert(r@ =~= initial_log_view());
        }
        r
    }
}

/// How the background execution of one job ended. The variants beyond
/// `Exited` are harness-side outcomes: the arguments were rejected before
/// any process was spawned, the process could not be spawned, the blocking
/// task carrying it was lost, or the fixed wall-clock timeout elapsed first.
pub enum JobOutcome {
    ArgumentRejected,
    Exited { success: bool, exit_code: Option<i32>, stdout: String, stderr: String },
    SpawnFailed { cause: String },
    TaskLost,
    TimedOut,
}

/// The terminal record that a given outcome is written down as.
pub open spec fn log_view_for_outcome(o: JobOutcome) -> JobLogView {
    match o {
        JobOutcome::ArgumentRejected => JobLogView {
            status: JobStatus::Failed,
            stdout: Seq::<char>::empty(),
            stderr: Seq::<char>::empty(),
            exit_code: None,
            error_message: Some("Invalid argument detected"@),
        },
        JobOutcome::Exited { success, exit_code, stdout, stderr } => JobLogView {
            status: if success {
                JobStatus::Completed
            } else {
                JobStatus::Failed
            },
            stdout: stdout@,
            stderr: stderr@,
            exit_code: exit_code,
            error_message: None,
        },
        JobOutcome::SpawnFailed { cause } => JobLogView {
            status: JobStatus::Failed,
            stdout: Seq::<char>::empty(),
            stderr: Seq::<char>::empty(),
            exit_code: None,
            error_message: Some("Failed to execute script: "@ + cause@),
        },
        JobOutcome::TaskLost => JobLogView {
            status: JobStatus::Failed,
            stdout: Seq::<char>::empty(),
            stderr: Seq::<char>::empty(),
            exit_code: None,
            error_message: Some("Failed to spawn blocking task"@),
        },
        JobOutcome::TimedOut => JobLogView {
            status: JobStatus::TimedOut,
            stdout: Seq::<char>::empty(),
            stderr: Seq::<char>::empty(),
            exit_code: None,
            error_message: Some("Script execution timed out after 5 minutes"@),
        },
    }
}

/// Plan the command line for one job: the shell interpreter, the confined
/// script path, then the supplied arguments in order — but only when every
/// argument passes sanitization. A rejected argument yields no command at
/// all, so no process is ever spawned for it.
pub fn plan_command(script_path: &String, args: &Vec<String>) -> (r: Option<Vec<String>>)
    ensures
        match r {
            Some(v) => {
                &&& forall|i: int| 0 <= i < args@.len() ==> !arg_is_bad(args@[i]@)
                &&& v@.len() == 2 + args@.len()
                &&& v@[0]@ == "bash"@
                &&& v@[1]@ == script_path@
                &&& forall|i: int| 0 <= i < args@.len() ==> v@[i + 2]@ == args@[i]@
            },
            None => !(forall|i: int| 0 <= i < args@.len() ==> !arg_is_bad(args@[i]@)),
        },
{
    if !args_acceptable(args) {
        return None;
    }
    let mut v: Vec<String> = Vec::new();
    v.push(String::from_str("bash"));
    v.push(script_path.clone());
    let n = args.len();
    let mut i: usize = 0;
    while i < n
        invariant
            n == args@.len(),
            i <= n,
            v@.len() == 2 + i,
            v@[0]@ == "bash"@,
            v@[1]@ == script_path@,
            forall|k: int| 0 <= k < i ==> v@[k + 2]@ == args@[k]@,
        decreases n - i,
    {
        v.push(args[i].clone());
        i += 1;
    }
    Some(v)
}

/// Turn the outcome of one background execution into the terminal record
/// for its job: a successful exit completes the job with its output and
/// exit code; a non-zero exit fails it the same way; every harness-side
/// outcome fails it (or times it out) with an explanatory message and no
/// exit code.
pub fn job_log_for_outcome(outcome: JobOutcome) -> (r: JobLog)
    ensures
        r@ == log_view_for_outcome(outcome),
{
    let r = match outcome {
        JobOutcome::ArgumentRejected => JobLog {
            status: JobStatus::Failed,
            stdout: String::new(),
            stderr: String::new(),
            exit_code: None,
            error_message: Some(String::from_str("Invalid argument detected")),
        },
        JobOutcome::Exited { success, exit_code, stdout, stderr } => JobLog {
            status: if success {
                JobStatus::Completed
            } else {
                JobStatus::Failed
            },
            stdout,
            stderr,
            exit_code,
            error_message: None,
        },
        JobOutcome::SpawnFailed { cause } => JobLog {
            status: JobStatus::Failed,
            stdout: String::new(),
            stderr: String::new(),
            exit_code: None,
            error_message: Some(
                String::from_str("Failed to execute script: ").concat(cause.as_str()),
            ),
        },
        JobOutcome::TaskLost => JobLog {
            status: JobStatus::Failed,
            stdout: String::new(),
            stderr: String::new(),
            exit_code: None,
            error_message: Some(String::from_str("Failed to spawn blocking task")),
        },
        JobOutcome::TimedOut => JobLog {
            status: JobStatus::TimedOut,
            stdout: String::new(),
            stderr: String::new(),
            exit_code: None,
            error_message: Some(String::from_str("Script execution timed out after 5 minutes")),
        },
    };
    proof {
        assert(r@ =~= log_view_for_outcome(outcome));
    }
    r
}

} // verus!
