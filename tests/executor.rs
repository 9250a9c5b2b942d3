use mmck_queue::executor::{
    classify_output, params_text, process_arguments, ExecutionOutcome, JobRequest, ProcessOutput,
};

#[test]
fn add_request_arguments() {
    let job = JobRequest {
        source: "SSH".to_string(),
        command: "add".to_string(),
        params: vec!["1".to_string(), "2".to_string()],
    };
    let (command, params) = process_arguments(&job);
    assert_eq!(command, "add");
    assert_eq!(params, "[1,2]");
}

#[test]
fn params_serialisation() {
    assert_eq!(params_text(&vec![]), "[]");
    assert_eq!(params_text(&vec!["2.5".to_string()]), "[2.5]");
    assert_eq!(
        params_text(&vec!["-1".to_string(), "0".to_string(), "3.25".to_string()]),
        "[-1,0,3.25]"
    );
}

#[test]
fn success_keeps_trimmed_stdout() {
    let out = ProcessOutput::Exited {
        success: true,
        stdout: "  3.0\n".to_string(),
        stderr: String::new(),
    };
    match classify_output(out) {
        ExecutionOutcome::Completed(text) => assert_eq!(text, "3.0"),
        _ => panic!("a successful exit must complete"),
    }
}

#[test]
fn nonzero_exit_keeps_stderr() {
    let out = ProcessOutput::Exited {
        success: false,
        stdout: "ignored".to_string(),
        stderr: "Traceback\n".to_string(),
    };
    match classify_output(out) {
        ExecutionOutcome::Failed(text) => assert_eq!(text, "Traceback\n"),
        _ => panic!("a nonzero exit must fail"),
    }
}

#[test]
fn spawn_failure_is_reported() {
    match classify_output(ProcessOutput::NotStarted("not found".to_string())) {
        ExecutionOutcome::SpawnFailed(reason) => assert_eq!(reason, "not found"),
        _ => panic!("a process that never started must be a spawn failure"),
    }
}
