use rusty_repl::config::OrchConfig;
use rusty_repl::model::Phase;
use rusty_repl::msgs::{Action, Event, NotificationEvent, OrchError, WorkRequest};
use rusty_repl::orchestrator::Orchestrator;

fn cfg() -> OrchConfig {
    OrchConfig {
        container_name: String::from("rusty-repl"),
        image: String::from("rusty-rep/nodejs"),
        host_dir: String::from("/home/user/rusty-tester"),
        mount_dir: String::from("/rusty-rep"),
        stop_timeout_secs: 10,
    }
}

/// Drive a fresh orchestrator to `Ready` through the existing-container
/// branch.
fn ready_orchestrator() -> Orchestrator {
    let mut orch = Orchestrator::new(cfg());
    orch.submit(WorkRequest::Start);
    orch.handle(Event::Containers(Ok(1)));
    orch.handle(Event::ContainerStarted(Ok(())));
    orch.handle(Event::ManifestLoaded(None));
    assert_eq!(orch.phase(), Phase::Ready);
    orch
}

#[test]
fn run_code_writes_trimmed_content() {
    let mut orch = ready_orchestrator();
    let acts = orch.submit(WorkRequest::Exec("  console.log(1)  ".to_string()));
    assert_eq!(
        acts,
        vec![
            Action::Notify(NotificationEvent::ExecutionStarted),
            Action::WriteCodeFile("console.log(1)".to_string()),
        ]
    );
}

#[test]
fn run_code_trim_is_idempotent() {
    let mut one = ready_orchestrator();
    let first = one.submit(WorkRequest::Exec(" \t\nconsole.log(1)\r\n ".to_string()));
    let mut two = ready_orchestrator();
    let second = two.submit(WorkRequest::Exec("console.log(1)".to_string()));
    assert_eq!(first, second);
}

#[test]
fn run_code_issues_node_exec_after_write_confirms() {
    let mut orch = ready_orchestrator();
    orch.submit(WorkRequest::Exec("console.log(1)".to_string()));
    let acts = orch.handle(Event::FileWritten(true));
    assert_eq!(acts.len(), 1);
    match &acts[0] {
        Action::CreateExec(cmd) => {
            assert_eq!(cmd.argv, vec!["node".to_string(), "/rusty-rep/main.js".to_string()]);
            assert_eq!(cmd.workdir, None);
        },
        other => panic!("expected CreateExec, got {:?}", other),
    }
}

#[test]
fn install_dependencies_writes_manifest_verbatim() {
    let mut orch = ready_orchestrator();
    let manifest = "{\n  \"dependencies\": { \"left-pad\": \"*\" }\n}\n  ".to_string();
    let acts = orch.submit(WorkRequest::ImportDependencies(manifest.clone()));
    assert_eq!(
        acts,
        vec![
            Action::Notify(NotificationEvent::ExecutionStarted),
            Action::WriteManifestFile(manifest),
        ]
    );
}

#[test]
fn install_dependencies_issues_npm_exec_in_workdir() {
    let mut orch = ready_orchestrator();
    orch.submit(WorkRequest::ImportDependencies("{}".to_string()));
    let acts = orch.handle(Event::FileWritten(true));
    assert_eq!(acts.len(), 1);
    match &acts[0] {
        Action::CreateExec(cmd) => {
            assert_eq!(cmd.argv, vec!["npm".to_string(), "i".to_string()]);
            assert_eq!(cmd.workdir, Some("/rusty-rep".to_string()));
        },
        other => panic!("expected CreateExec, got {:?}", other),
    }
}

#[test]
fn installed_manifest_round_trips_through_imports_loaded() {
    let mut orch = ready_orchestrator();
    let manifest = "{ \"dependencies\": {} }\n".to_string();
    orch.submit(WorkRequest::ImportDependencies(manifest.clone()));
    orch.handle(Event::FileWritten(true));
    orch.handle(Event::ExecStarted(Ok(())));
    orch.handle(Event::ExecEnded);

    // A later provisioning round finds the existing container and reads the
    // manifest file back: its exact text is forwarded.
    orch.submit(WorkRequest::Start);
    orch.handle(Event::Containers(Ok(1)));
    orch.handle(Event::ContainerStarted(Ok(())));
    let acts = orch.handle(Event::ManifestLoaded(Some(manifest.clone())));
    assert_eq!(acts[0], Action::Notify(NotificationEvent::ImportsLoaded(manifest)));
}

#[test]
fn output_chunks_concatenate_in_arrival_order() {
    let mut orch = ready_orchestrator();
    orch.submit(WorkRequest::Exec("console.log('hi')".to_string()));
    orch.handle(Event::FileWritten(true));
    orch.handle(Event::ExecStarted(Ok(())));
    assert_eq!(orch.handle(Event::OutputChunk("hi".to_string())), Vec::<Action>::new());
    assert_eq!(orch.handle(Event::OutputChunk("\nthere".to_string())), Vec::<Action>::new());
    let acts = orch.handle(Event::ExecEnded);
    assert_eq!(
        acts,
        vec![
            Action::Notify(NotificationEvent::Output("hi\nthere".to_string())),
            Action::Notify(NotificationEvent::ExecutionEnded),
        ]
    );
}

#[test]
fn empty_stream_reports_empty_output() {
    let mut orch = ready_orchestrator();
    orch.submit(WorkRequest::Exec("x".to_string()));
    orch.handle(Event::FileWritten(true));
    orch.handle(Event::ExecStarted(Ok(())));
    let acts = orch.handle(Event::ExecEnded);
    assert_eq!(acts[0], Action::Notify(NotificationEvent::Output(String::new())));
}

#[test]
fn rejected_exec_reports_no_spurious_output() {
    let mut orch = ready_orchestrator();
    orch.submit(WorkRequest::Exec("x".to_string()));
    orch.handle(Event::FileWritten(true));
    let acts = orch.handle(Event::ExecStarted(Err(OrchError::RuntimeRejected)));
    assert!(!acts.iter().any(|a| matches!(a, Action::Notify(NotificationEvent::Output(_)))));
    assert_eq!(
        acts[0],
        Action::Notify(NotificationEvent::StatusMessage(
            "error: container runtime rejected the request".to_string()
        ))
    );
    assert_eq!(acts[1], Action::Notify(NotificationEvent::ExecutionEnded));
}

#[test]
fn failed_write_reports_filesystem_error_and_moves_on() {
    let mut orch = ready_orchestrator();
    orch.submit(WorkRequest::Exec("a".to_string()));
    orch.submit(WorkRequest::Exec("b".to_string()));
    let acts = orch.handle(Event::FileWritten(false));
    assert_eq!(
        acts[0],
        Action::Notify(NotificationEvent::StatusMessage(
            "error: cannot write working directory".to_string()
        ))
    );
    assert_eq!(acts[1], Action::Notify(NotificationEvent::ExecutionEnded));
    // The next queued request is dispatched right away.
    assert!(acts.contains(&Action::WriteCodeFile("b".to_string())));
    assert!(!acts.iter().any(|a| matches!(a, Action::CreateExec(_))));
}
