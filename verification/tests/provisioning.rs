use rusty_repl::config::OrchConfig;
use rusty_repl::model::Phase;
use rusty_repl::msgs::{Action, Event, ListFilter, NotificationEvent, OrchError, WorkRequest};
use rusty_repl::orchestrator::Orchestrator;

fn cfg() -> OrchConfig {
    OrchConfig {
        container_name: String::from("rusty-repl"),
        image: String::from("rusty-rep/nodejs"),
        host_dir: String::from("/home/user/rusty-tester"),
        mount_dir: String::from("/rusty-rep"),
        stop_timeout_secs: 10,
    }
}

fn list_all() -> Action {
    Action::ListContainers(ListFilter { name: "rusty-repl".to_string(), all: true })
}

fn status_texts(acts: &[Action]) -> Vec<String> {
    let mut out = Vec::new();
    for a in acts {
        if let Action::Notify(NotificationEvent::StatusMessage(t)) = a {
            out.push(t.clone());
        }
    }
    out
}

#[test]
fn fresh_branch_reaches_ready_only_after_build_create_start() {
    let mut orch = Orchestrator::new(cfg());
    assert_eq!(orch.phase(), Phase::Uninitialized);

    let acts = orch.submit(WorkRequest::Start);
    assert_eq!(acts, vec![list_all()]);
    assert_eq!(orch.phase(), Phase::Provisioning);

    let mut statuses: Vec<String> = Vec::new();
    let mut builds = 0;
    let mut creates = 0;
    let mut starts = 0;

    let acts = orch.handle(Event::Containers(Ok(0)));
    statuses.extend(status_texts(&acts));
    assert!(acts.contains(&Action::BuildImage));
    assert_eq!(orch.phase(), Phase::Provisioning);
    builds += acts.iter().filter(|a| **a == Action::BuildImage).count();

    let acts = orch.handle(Event::ImageBuilt(Ok(())));
    statuses.extend(status_texts(&acts));
    assert_eq!(acts.len(), 1);
    match &acts[0] {
        Action::CreateContainer(spec) => {
            assert_eq!(spec.name, "rusty-repl");
            assert_eq!(spec.image, "rusty-rep/nodejs");
            assert_eq!(spec.mount_source, "/home/user/rusty-tester");
            assert_eq!(spec.mount_target, "/rusty-rep");
            assert!(spec.tty && spec.open_stdin);
            assert!(spec.attach_stdin && spec.attach_stdout && spec.attach_stderr);
        },
        other => panic!("expected CreateContainer, got {:?}", other),
    }
    assert_eq!(orch.phase(), Phase::Provisioning);
    creates += 1;

    let acts = orch.handle(Event::ContainerCreated(Ok(())));
    statuses.extend(status_texts(&acts));
    assert_eq!(acts, vec![Action::StartContainer]);
    assert_eq!(orch.phase(), Phase::Provisioning);
    starts += 1;

    let acts = orch.handle(Event::ContainerStarted(Ok(())));
    statuses.extend(status_texts(&acts));
    assert!(acts.contains(&Action::ReadManifest));
    assert_eq!(orch.phase(), Phase::Provisioning);

    let acts = orch.handle(Event::ManifestLoaded(None));
    statuses.extend(status_texts(&acts));
    assert_eq!(orch.phase(), Phase::Ready);
    // A freshly created container has nothing to import: no soft error.
    assert_eq!(acts, Vec::<Action>::new());

    assert_eq!(statuses, vec!["building image...".to_string(), "completed setup".to_string()]);
    assert_eq!((builds, creates, starts), (1, 1, 1));
}

#[test]
fn existing_branch_single_start_and_never_builds() {
    let mut orch = Orchestrator::new(cfg());
    orch.submit(WorkRequest::Start);

    let mut all: Vec<Action> = Vec::new();
    all.extend(orch.handle(Event::Containers(Ok(1))));
    all.extend(orch.handle(Event::ContainerStarted(Ok(()))));
    all.extend(orch.handle(Event::ManifestLoaded(None)));

    assert_eq!(orch.phase(), Phase::Ready);
    let builds = all.iter().filter(|a| **a == Action::BuildImage).count();
    let starts = all.iter().filter(|a| **a == Action::StartContainer).count();
    assert_eq!(builds, 0);
    assert_eq!(starts, 1);

    let statuses = status_texts(&all);
    assert_eq!(
        statuses,
        vec![
            "starting container...".to_string(),
            "container running".to_string(),
            "manifest unreadable".to_string(),
        ]
    );
}

#[test]
fn listing_failure_aborts_setup() {
    let mut orch = Orchestrator::new(cfg());
    orch.submit(WorkRequest::Start);
    let acts = orch.handle(Event::Containers(Err(OrchError::RuntimeUnreachable)));
    assert_eq!(
        acts,
        vec![Action::Notify(NotificationEvent::StatusMessage(
            "error: container runtime unreachable".to_string()
        ))]
    );
    assert_eq!(orch.phase(), Phase::Provisioning);
}

#[test]
fn build_failure_keeps_provisioning() {
    let mut orch = Orchestrator::new(cfg());
    orch.submit(WorkRequest::Start);
    orch.handle(Event::Containers(Ok(0)));
    let acts = orch.handle(Event::ImageBuilt(Err(OrchError::BuildFailed)));
    assert_eq!(
        acts,
        vec![Action::Notify(NotificationEvent::StatusMessage(
            "error: image build failed".to_string()
        ))]
    );
    assert_eq!(orch.phase(), Phase::Provisioning);
    // Further runtime events are ignored in the failed round.
    assert_eq!(orch.handle(Event::ContainerCreated(Ok(()))), Vec::<Action>::new());
    assert_eq!(orch.phase(), Phase::Provisioning);
}

#[test]
fn create_failure_keeps_provisioning() {
    let mut orch = Orchestrator::new(cfg());
    orch.submit(WorkRequest::Start);
    orch.handle(Event::Containers(Ok(0)));
    orch.handle(Event::ImageBuilt(Ok(())));
    let acts = orch.handle(Event::ContainerCreated(Err(OrchError::RuntimeRejected)));
    assert_eq!(
        acts,
        vec![Action::Notify(NotificationEvent::StatusMessage(
            "error: container runtime rejected the request".to_string()
        ))]
    );
    assert_eq!(orch.phase(), Phase::Provisioning);
}

#[test]
fn start_failure_blocks_queued_exec_until_new_start_succeeds() {
    let mut orch = Orchestrator::new(cfg());
    orch.submit(WorkRequest::Start);

    // An exec request arrives while provisioning: it is buffered.
    let acts = orch.submit(WorkRequest::Exec("console.log(1)".to_string()));
    assert_eq!(acts, Vec::<Action>::new());
    assert_eq!(orch.pending(), 1);

    orch.handle(Event::Containers(Ok(1)));
    let acts = orch.handle(Event::ContainerStarted(Err(OrchError::RuntimeUnreachable)));
    assert_eq!(orch.phase(), Phase::Provisioning);
    assert!(!acts.iter().any(|a| matches!(a, Action::CreateExec(_))));
    assert!(!acts.iter().any(|a| matches!(a, Action::WriteCodeFile(_))));
    assert_eq!(orch.pending(), 1);

    // Nothing moves while the round stays failed.
    assert_eq!(orch.handle(Event::ExecEnded), Vec::<Action>::new());
    assert_eq!(orch.pending(), 1);

    // A new Start re-triggers provisioning; on success the buffered exec runs.
    let acts = orch.submit(WorkRequest::Start);
    assert_eq!(acts, vec![list_all()]);
    orch.handle(Event::Containers(Ok(1)));
    orch.handle(Event::ContainerStarted(Ok(())));
    let acts = orch.handle(Event::ManifestLoaded(None));
    assert_eq!(orch.phase(), Phase::Ready);
    assert!(acts.contains(&Action::Notify(NotificationEvent::ExecutionStarted)));
    assert!(acts.contains(&Action::WriteCodeFile("console.log(1)".to_string())));
    assert_eq!(orch.pending(), 0);
}

#[test]
fn start_while_round_underway_is_dropped() {
    let mut orch = Orchestrator::new(cfg());
    orch.submit(WorkRequest::Start);
    let acts = orch.submit(WorkRequest::Start);
    assert_eq!(acts, Vec::<Action>::new());
    assert_eq!(orch.phase(), Phase::Provisioning);
}

#[test]
fn shutdown_stops_container_exactly_once() {
    let mut orch = Orchestrator::new(cfg());
    let acts = orch.shutdown();
    assert_eq!(acts, vec![Action::StopContainer(10)]);
    let acts = orch.shutdown();
    assert_eq!(acts, Vec::<Action>::new());
}
