use provisioner::job::job_log_for_outcome;
use provisioner::job::plan_command;
use provisioner::job::JobLog;
use provisioner::job::JobOutcome;
use provisioner::job::JobStatus;
use provisioner::service::create_job;
use provisioner::service::finish_job;
use provisioner::service::get_logs;
use provisioner::service::LogError;
use provisioner::store::JobStore;
use provisioner::validate::args_acceptable;

#[test]
fn successful_exit_completes_the_job() {
    let log = job_log_for_outcome(JobOutcome::Exited {
        success: true,
        exit_code: Some(0),
        stdout: "hello\n".to_string(),
        stderr: String::new(),
    });
    assert_eq!(log.status, JobStatus::Completed);
    assert_eq!(log.exit_code, Some(0));
    assert_eq!(log.stdout, "hello\n");
    assert_eq!(log.stderr, "");
    assert_eq!(log.error_message, None);
}

#[test]
fn nonzero_exit_fails_the_job() {
    let log = job_log_for_outcome(JobOutcome::Exited {
        success: false,
        exit_code: Some(7),
        stdout: String::new(),
        stderr: "boom\n".to_string(),
    });
    assert_eq!(log.status, JobStatus::Failed);
    assert_eq!(log.exit_code, Some(7));
    assert_eq!(log.stderr, "boom\n");
    assert_eq!(log.error_message, None);
}

#[test]
fn timeout_leaves_no_exit_code() {
    let log = job_log_for_outcome(JobOutcome::TimedOut);
    assert_eq!(log.status, JobStatus::TimedOut);
    assert_eq!(log.exit_code, None);
    assert_eq!(
        log.error_message,
        Some("Script execution timed out after 5 minutes".to_string())
    );
}

#[test]
fn rejected_argument_fails_without_a_process() {
    let log = job_log_for_outcome(JobOutcome::ArgumentRejected);
    assert_eq!(log.status, JobStatus::Failed);
    assert_eq!(log.exit_code, None);
    assert_eq!(log.stdout, "");
    assert_eq!(log.error_message, Some("Invalid argument detected".to_string()));
}

#[test]
fn spawn_failure_records_the_cause() {
    let log = job_log_for_outcome(JobOutcome::SpawnFailed {
        cause: "No such file or directory".to_string(),
    });
    assert_eq!(log.status, JobStatus::Failed);
    assert_eq!(log.exit_code, None);
    assert_eq!(
        log.error_message,
        Some("Failed to execute script: No such file or directory".to_string())
    );
}

#[test]
fn lost_task_fails_the_job() {
    let log = job_log_for_outcome(JobOutcome::TaskLost);
    assert_eq!(log.status, JobStatus::Failed);
    assert_eq!(log.error_message, Some("Failed to spawn blocking task".to_string()));
}

#[test]
fn statement_separator_in_argument_is_rejected() {
    assert!(!args_acceptable(&vec!["x; rm y".to_string()]));
}

#[test]
fn pipe_in_argument_is_rejected() {
    assert!(!args_acceptable(&vec!["ok".to_string(), "a|b".to_string()]));
}

#[test]
fn traversal_in_argument_is_rejected() {
    assert!(!args_acceptable(&vec!["../up".to_string()]));
}

#[test]
fn plain_arguments_are_accepted() {
    assert!(args_acceptable(&vec![]));
    assert!(args_acceptable(&vec!["--verbose".to_string(), "input.txt".to_string()]));
}

#[test]
fn malformed_identifier_is_rejected() {
    let store = JobStore::new();
    let r = get_logs(&store, &"not-a-uuid".to_string());
    assert_eq!(r.unwrap_err(), LogError::InvalidJobId);
    assert_eq!(LogError::InvalidJobId.message(), "Invalid job ID format");
}

#[test]
fn unknown_identifier_is_not_found() {
    let store = JobStore::new();
    let r = get_logs(&store, &"550e8400-e29b-41d4-a716-446655440000".to_string());
    assert_eq!(r.unwrap_err(), LogError::NotFound);
    assert_eq!(LogError::NotFound.message(), "Job not found");
}

#[test]
fn fresh_job_reads_running() {
    let mut store = JobStore::new();
    let id = create_job(&mut store);
    assert_eq!(id.len(), 36);
    assert!(uuid::Uuid::parse_str(&id).is_ok());
    let log = get_logs(&store, &id).unwrap();
    assert_eq!(log.status, JobStatus::Running);
    assert_eq!(log.stdout, "");
    assert_eq!(log.stderr, "");
    assert_eq!(log.exit_code, None);
    assert_eq!(log.error_message, None);
}

#[test]
fn terminal_record_reads_back_identically() {
    let mut store = JobStore::new();
    let id = create_job(&mut store);
    finish_job(
        &mut store,
        id.clone(),
        JobOutcome::Exited {
            success: true,
            exit_code: Some(0),
            stdout: "done\n".to_string(),
            stderr: String::new(),
        },
    );
    let first = get_logs(&store, &id).unwrap();
    let second = get_logs(&store, &id).unwrap();
    assert_eq!(format!("{:?}", first), format!("{:?}", second));
    assert_eq!(first.status, JobStatus::Completed);
    assert_eq!(first.exit_code, Some(0));
    assert_eq!(first.stdout, "done\n");
}

#[test]
fn other_jobs_do_not_disturb_a_terminal_record() {
    let mut store = JobStore::new();
    let a = create_job(&mut store);
    finish_job(
        &mut store,
        a.clone(),
        JobOutcome::Exited {
            success: false,
            exit_code: Some(2),
            stdout: String::new(),
            stderr: "bad\n".to_string(),
        },
    );
    let before = format!("{:?}", get_logs(&store, &a).unwrap());
    let b = create_job(&mut store);
    finish_job(&mut store, b.clone(), JobOutcome::TimedOut);
    let after = format!("{:?}", get_logs(&store, &a).unwrap());
    assert_eq!(before, after);
    assert_eq!(get_logs(&store, &b).unwrap().status, JobStatus::TimedOut);
}

#[test]
fn terminal_write_replaces_the_placeholder() {
    let mut store = JobStore::new();
    let mut log = JobLog::default();
    let id = "550e8400-e29b-41d4-a716-446655440000".to_string();
    store.put(id.clone(), log);
    log = JobLog::default();
    log.status = JobStatus::Failed;
    log.error_message = Some("Invalid argument detected".to_string());
    store.put(id.clone(), log);
    let read = store.get(&id).unwrap();
    assert_eq!(read.status, JobStatus::Failed);
    assert_eq!(read.error_message, Some("Invalid argument detected".to_string()));
}

#[test]
fn simple_identifier_form_is_well_formed() {
    // The parser accepts the 32-digit simple form too; it names no job here.
    let store = JobStore::new();
    let r = get_logs(&store, &"550e8400e29b41d4a716446655440000".to_string());
    assert_eq!(r.unwrap_err(), LogError::NotFound);
}

#[test]
fn command_plan_holds_shell_script_and_arguments() {
    let script = "./allowed_scripts/run.sh".to_string();
    let args = vec!["--fast".to_string(), "input.txt".to_string()];
    let argv = plan_command(&script, &args).unwrap();
    assert_eq!(
        argv,
        vec![
            "bash".to_string(),
            "./allowed_scripts/run.sh".to_string(),
            "--fast".to_string(),
            "input.txt".to_string()
        ]
    );
}

#[test]
fn command_plan_refuses_a_bad_argument() {
    let script = "./allowed_scripts/run.sh".to_string();
    assert_eq!(plan_command(&script, &vec!["a; rm b".to_string()]), None);
    assert_eq!(plan_command(&script, &vec!["a|b".to_string()]), None);
    assert_eq!(plan_command(&script, &vec!["../up".to_string()]), None);
}
