use rusty_repl::config::OrchConfig;
use rusty_repl::model::Phase;
use rusty_repl::msgs::{Action, Event, NotificationEvent, WorkRequest};
use rusty_repl::orchestrator::Orchestrator;

fn cfg() -> OrchConfig {
    OrchConfig {
        container_name: String::from("sandbox-a"),
        image: String::from("rusty-rep/nodejs"),
        host_dir: String::from("/work"),
        mount_dir: String::from("/rusty-rep"),
        stop_timeout_secs: 5,
    }
}

/// The code file contents a batch of actions writes, in order.
fn code_writes(acts: &[Action]) -> Vec<String> {
    let mut out = Vec::new();
    for a in acts {
        if let Action::WriteCodeFile(t) = a {
            out.push(t.clone());
        }
    }
    out
}

fn count_create_execs(acts: &[Action]) -> usize {
    acts.iter().filter(|a| matches!(a, Action::CreateExec(_))).count()
}

/// Run one request to completion, returning every action the orchestrator
/// issued along the way, with the write and the exec acknowledged and one
/// output chunk streamed.
fn run_current_to_completion(orch: &mut Orchestrator, out: &str) -> Vec<Action> {
    let mut all = Vec::new();
    all.extend(orch.handle(Event::FileWritten(true)));
    all.extend(orch.handle(Event::ExecStarted(Ok(()))));
    all.extend(orch.handle(Event::OutputChunk(out.to_string())));
    all.extend(orch.handle(Event::ExecEnded));
    all
}

#[test]
fn requests_buffered_before_ready_run_in_submission_order() {
    let mut orch = Orchestrator::new(cfg());
    orch.submit(WorkRequest::Start);

    // Three requests arrive while the sandbox is still provisioning.
    assert_eq!(orch.submit(WorkRequest::Exec("first".to_string())), Vec::<Action>::new());
    assert_eq!(orch.submit(WorkRequest::Exec("second".to_string())), Vec::<Action>::new());
    assert_eq!(orch.submit(WorkRequest::Exec("third".to_string())), Vec::<Action>::new());
    assert_eq!(orch.pending(), 3);

    orch.handle(Event::Containers(Ok(1)));
    orch.handle(Event::ContainerStarted(Ok(())));
    let mut all = orch.handle(Event::ManifestLoaded(None));
    assert_eq!(orch.phase(), Phase::Ready);

    // Draining: each completion dispatches the next queued request.
    all.extend(run_current_to_completion(&mut orch, "a"));
    all.extend(run_current_to_completion(&mut orch, "b"));
    all.extend(run_current_to_completion(&mut orch, "c"));

    assert_eq!(
        code_writes(&all),
        vec!["first".to_string(), "second".to_string(), "third".to_string()]
    );
    assert_eq!(orch.pending(), 0);
}

#[test]
fn no_second_exec_before_prior_stream_is_drained() {
    let mut orch = Orchestrator::new(cfg());
    orch.submit(WorkRequest::Start);
    orch.handle(Event::Containers(Ok(1)));
    orch.handle(Event::ContainerStarted(Ok(())));
    orch.handle(Event::ManifestLoaded(None));

    let mut in_flight = 0;
    let mut track = |acts: &[Action], orch_done: bool| {
        for a in acts {
            if matches!(a, Action::CreateExec(_)) {
                assert_eq!(in_flight, 0, "a second exec started while one was in flight");
                in_flight += 1;
            }
        }
        if orch_done {
            in_flight -= 1;
        }
    };

    let acts = orch.submit(WorkRequest::Exec("one".to_string()));
    track(&acts, false);
    let acts = orch.submit(WorkRequest::Exec("two".to_string()));
    track(&acts, false);
    assert_eq!(count_create_execs(&acts), 0);

    let acts = orch.handle(Event::FileWritten(true));
    track(&acts, false);
    let acts = orch.handle(Event::ExecStarted(Ok(())));
    track(&acts, false);
    // More requests while the first exec streams: still no new exec.
    let acts = orch.submit(WorkRequest::Exec("three".to_string()));
    track(&acts, false);
    let acts = orch.handle(Event::OutputChunk("...".to_string()));
    track(&acts, false);

    // Only after the stream is fully drained is the next request started,
    // and its exec is created only after its own write confirms.
    let acts = orch.handle(Event::ExecEnded);
    track(&acts, true);
    assert_eq!(count_create_execs(&acts), 0);
    let acts = orch.handle(Event::FileWritten(true));
    track(&acts, false);
    assert_eq!(count_create_execs(&acts), 1);
}

#[test]
fn start_queued_while_ready_reprovisions_in_order() {
    let mut orch = Orchestrator::new(cfg());
    orch.submit(WorkRequest::Start);
    orch.handle(Event::Containers(Ok(1)));
    orch.handle(Event::ContainerStarted(Ok(())));
    orch.handle(Event::ManifestLoaded(None));

    // An exec is running; a Start and another exec queue behind it.
    orch.submit(WorkRequest::Exec("one".to_string()));
    orch.handle(Event::FileWritten(true));
    orch.handle(Event::ExecStarted(Ok(())));
    assert_eq!(orch.submit(WorkRequest::Start), Vec::<Action>::new());
    assert_eq!(orch.submit(WorkRequest::Exec("two".to_string())), Vec::<Action>::new());

    // Draining the exec dispatches the queued Start: provisioning again.
    let acts = orch.handle(Event::ExecEnded);
    assert!(acts.iter().any(|a| matches!(a, Action::ListContainers(_))));
    assert_eq!(orch.phase(), Phase::Provisioning);
    assert_eq!(orch.pending(), 1);

    // When the new round completes, the remaining exec runs.
    orch.handle(Event::Containers(Ok(1)));
    orch.handle(Event::ContainerStarted(Ok(())));
    let acts = orch.handle(Event::ManifestLoaded(None));
    assert_eq!(orch.phase(), Phase::Ready);
    assert!(acts.contains(&Action::WriteCodeFile("two".to_string())));
}

#[test]
fn runtime_events_before_start_are_ignored() {
    let mut orch = Orchestrator::new(cfg());
    assert_eq!(orch.handle(Event::Containers(Ok(3))), Vec::<Action>::new());
    assert_eq!(orch.handle(Event::ExecEnded), Vec::<Action>::new());
    assert_eq!(orch.handle(Event::FileWritten(true)), Vec::<Action>::new());
    assert_eq!(orch.phase(), Phase::Uninitialized);
}

#[test]
fn one_bad_request_does_not_stop_the_loop() {
    let mut orch = Orchestrator::new(cfg());
    orch.submit(WorkRequest::Start);
    orch.handle(Event::Containers(Ok(1)));
    orch.handle(Event::ContainerStarted(Ok(())));
    orch.handle(Event::ManifestLoaded(None));

    orch.submit(WorkRequest::Exec("bad".to_string()));
    orch.submit(WorkRequest::Exec("good".to_string()));
    // The first request's write fails; the loop reports it and goes on.
    let acts = orch.handle(Event::FileWritten(false));
    assert!(acts.contains(&Action::WriteCodeFile("good".to_string())));
    let acts = orch.handle(Event::FileWritten(true));
    assert_eq!(count_create_execs(&acts), 1);
    let acts = orch.handle(Event::ExecStarted(Ok(())));
    assert_eq!(acts, Vec::<Action>::new());
    orch.handle(Event::OutputChunk("ok".to_string()));
    let acts = orch.handle(Event::ExecEnded);
    assert_eq!(acts[0], Action::Notify(NotificationEvent::Output("ok".to_string())));
}
