//! The orchestrator's abstract state and transition system.
//!
//! Every executable method of the orchestrator is specified against the
//! spec-level transition functions in this module: feeding one event to the
//! orchestrator takes its model through exactly one of these transitions and
//! returns exactly the actions the transition names.  The laws about the
//! orchestrator — FIFO processing, at most one exec in flight, branch-exact
//! provisioning — are proved over these functions.

use vstd::prelude::*;

use crate::config::{
    code_command_view, container_spec_view, install_command_view, list_filter_view, ConfigView,
};
use crate::msgs::{error_text_view, ActionView, EventView, NotificationView, OrchError, RequestView};
use crate::text::trimmed;

verus! {

/// The three externally visible states of the command router.
#[derive(Debug, Clone, Copy, PartialEq, Eq, Structural)]
pub enum Phase {
    /// Constructed, provisioning not yet triggered.
    Uninitialized,
    /// Provisioning triggered and not yet succeeded; no work is dispatched.
    Provisioning,
    /// The sandbox container is running; queued work is dispatched in order.
    Ready,
}

/// The provisioner's position within one reconciliation round.
#[derive(Debug, Clone, Copy, PartialEq, Eq, Structural)]
pub enum ProvStep {
    /// No provisioning round has been triggered yet.
    NotStarted,
    /// Waiting for the container listing.
    AwaitContainers,
    /// A matching container exists; waiting for it to start.
    AwaitStartExisting,
    /// No matching container; waiting for the image build to finish.
    AwaitBuild,
    /// Image built; waiting for the container to be created.
    AwaitCreate,
    /// Container created; waiting for it to start.
    AwaitStartFresh,
    /// Existing container started; waiting for the manifest file's contents.
    AwaitManifestExisting,
    /// Fresh container started; waiting for the manifest file's contents.
    AwaitManifestFresh,
    /// The round failed; only a new `Start` request re-triggers it.
    Failed,
    /// The round succeeded: the sandbox is ready.
    Done,
}

/// What the exec pipeline is doing for the request currently being processed.
#[verifier::ext_equal]
pub enum JobState {
    /// No request is being processed.
    Idle,
    /// The request's file write was issued and is not yet confirmed.
    Writing(RequestView),
    /// The request's exec was issued and its output stream is being drained.
    Running(RequestView),
}

/// The orchestrator's abstract state.
///
/// `submitted` and `processed` record the accepted work requests and the
/// requests whose processing has finished, in order; `code_file` and
/// `manifest_file` model the contents of the two files in the working
/// directory, `None` when a file has not been written or its last write
/// failed.  `branch`, the success flags and the issue counters record how
/// the current provisioning round has unfolded.
#[verifier::ext_equal]
pub struct Model {
    pub cfg: ConfigView,
    pub prov: ProvStep,
    pub work: JobState,
    pub queue: Seq<RequestView>,
    pub submitted: Seq<RequestView>,
    pub processed: Seq<RequestView>,
    pub out_buf: Seq<char>,
    pub code_file: Option<Seq<char>>,
    pub manifest_file: Option<Seq<char>>,
    /// `Some(false)` once the round chose the existing-container branch,
    /// `Some(true)` once it chose the build-and-create branch.
    pub branch: Option<bool>,
    pub build_ok: bool,
    pub create_ok: bool,
    pub start_ok: bool,
    /// How many `BuildImage` actions the current round has issued.
    pub builds_issued: nat,
    /// How many `StartContainer` actions the current round has issued.
    pub starts_issued: nat,
    /// Whether the shutdown stop was already issued.
    pub stopped: bool,
}

/// The initial model: nothing triggered, nothing queued, files unwritten.
pub open spec fn init(cfg: ConfigView) -> Model {
    Model {
        cfg,
        prov: ProvStep::NotStarted,
        work: JobState::Idle,
        queue: Seq::empty(),
        submitted: Seq::empty(),
        processed: Seq::empty(),
        out_buf: Seq::empty(),
        code_file: None,
        manifest_file: None,
        branch: None,
        build_ok: false,
        create_ok: false,
        start_ok: false,
        builds_issued: 0,
        starts_issued: 0,
        stopped: false,
    }
}

impl Model {
    /// The externally visible state, derived from the provisioner's step.
    pub open spec fn phase(self) -> Phase {
        match self.prov {
            ProvStep::NotStarted => Phase::Uninitialized,
            ProvStep::Done => Phase::Ready,
            _ => Phase::Provisioning,
        }
    }
}

/// The request being processed, as a sequence of length zero or one.
pub open spec fn current(m: Model) -> Seq<RequestView> {
    match m.work {
        JobState::Idle => Seq::empty(),
        JobState::Writing(r) => seq![r],
        JobState::Running(r) => seq![r],
    }
}

/// A status-message notification action.
pub open spec fn status(t: Seq<char>) -> ActionView {
    ActionView::Notify(NotificationView::StatusMessage(t))
}

/// Begin a provisioning round: reset the round's history and list the
/// containers matching the configured name.
pub open spec fn trigger_provision(m: Model) -> (Model, Seq<ActionView>) {
    (
        Model {
            prov: ProvStep::AwaitContainers,
            branch: None,
            build_ok: false,
            create_ok: false,
            start_ok: false,
            builds_issued: 0,
            starts_issued: 0,
            ..m
        },
        seq![ActionView::ListContainers(list_filter_view(m.cfg))],
    )
}

/// Begin processing one dequeued `Exec` or `ImportDependencies` request:
/// announce it and issue the file write — trimmed for code, verbatim for a
/// manifest.  The exec itself is issued only once the write is confirmed.
/// A `Start` carries no file write and is dispatched elsewhere: here it is
/// a no-op.
pub open spec fn dispatch_job(m: Model, r: RequestView) -> (Model, Seq<ActionView>) {
    match r {
        RequestView::Exec(code) => (
            Model { work: JobState::Writing(r), out_buf: Seq::empty(), ..m },
            seq![
                ActionView::Notify(NotificationView::ExecutionStarted),
                ActionView::WriteCodeFile(trimmed(code)),
            ],
        ),
        RequestView::ImportDependencies(manifest) => (
            Model { work: JobState::Writing(r), out_buf: Seq::empty(), ..m },
            seq![
                ActionView::Notify(NotificationView::ExecutionStarted),
                ActionView::WriteManifestFile(manifest),
            ],
        ),
        RequestView::Start => (m, Seq::empty()),
    }
}

/// Dispatch the request at the head of the queue, if the sandbox is ready
/// and no request is being processed.  A dequeued `Start` re-triggers
/// provisioning and is thereby fully processed.
pub open spec fn dispatch_head(m: Model) -> (Model, Seq<ActionView>) {
    if m.phase() == Phase::Ready && m.work is Idle && m.queue.len() > 0 {
        let r = m.queue[0];
        let m1 = Model { queue: m.queue.drop_first(), ..m };
        match r {
            RequestView::Start => trigger_provision(
                Model { processed: m1.processed.push(r), ..m1 },
            ),
            _ => dispatch_job(m1, r),
        }
    } else {
        (m, Seq::empty())
    }
}

/// Record a request as accepted and place it at the back of the queue.
pub open spec fn enqueue(m: Model, r: RequestView) -> Model {
    Model { queue: m.queue.push(r), submitted: m.submitted.push(r), ..m }
}

/// Accept a submitted request.  `Exec` and `ImportDependencies` join the
/// queue and are dispatched at once when the sandbox is ready and idle.  A
/// `Start` re-triggers provisioning when none was triggered yet or the last
/// round failed — it takes effect ahead of any buffered work, as a control
/// signal rather than a queued request, and is therefore not recorded in
/// `submitted`; while the sandbox is ready it queues like any other
/// request; while a round is underway it is dropped as already satisfied.
pub open spec fn on_submit(m: Model, r: RequestView) -> (Model, Seq<ActionView>) {
    match r {
        RequestView::Start => {
            if m.prov is NotStarted || m.prov is Failed {
                trigger_provision(m)
            } else if m.phase() == Phase::Ready {
                dispatch_head(enqueue(m, r))
            } else {
                (m, Seq::empty())
            }
        },
        _ => dispatch_head(enqueue(m, r)),
    }
}

/// React to the container listing: an existing container is started, an
/// absent one is built and created; a listing failure aborts the round.
pub open spec fn on_containers(m: Model, res: Result<usize, OrchError>) -> (
    Model,
    Seq<ActionView>,
) {
    if m.prov is AwaitContainers {
        match res {
            Ok(n) => {
                if n > 0 {
                    (
                        Model {
                            prov: ProvStep::AwaitStartExisting,
                            branch: Some(false),
                            starts_issued: m.starts_issued + 1,
                            ..m
                        },
                        seq![status("starting container..."@), ActionView::StartContainer],
                    )
                } else {
                    (
                        Model {
                            prov: ProvStep::AwaitBuild,
                            branch: Some(true),
                            builds_issued: m.builds_issued + 1,
                            ..m
                        },
                        seq![status("building image..."@), ActionView::BuildImage],
                    )
                }
            },
            Err(e) => (Model { prov: ProvStep::Failed, ..m }, seq![status(error_text_view(e))]),
        }
    } else {
        (m, Seq::empty())
    }
}

/// React to the outcome of a `StartContainer` action: success moves the
/// round on to loading the manifest; failure aborts the round.
pub open spec fn on_container_started(m: Model, res: Result<(), OrchError>) -> (
    Model,
    Seq<ActionView>,
) {
    match m.prov {
        ProvStep::AwaitStartExisting => match res {
            Ok(_) => (
                Model { prov: ProvStep::AwaitManifestExisting, start_ok: true, ..m },
                seq![status("container running"@), ActionView::ReadManifest],
            ),
            Err(e) => (Model { prov: ProvStep::Failed, ..m }, seq![status(error_text_view(e))]),
        },
        ProvStep::AwaitStartFresh => match res {
            Ok(_) => (
                Model { prov: ProvStep::AwaitManifestFresh, start_ok: true, ..m },
                seq![status("completed setup"@), ActionView::ReadManifest],
            ),
            Err(e) => (Model { prov: ProvStep::Failed, ..m }, seq![status(error_text_view(e))]),
        },
        _ => (m, Seq::empty()),
    }
}

/// React to the outcome of the image build: success proceeds to creating
/// the container; failure aborts the round.
pub open spec fn on_image_built(m: Model, res: Result<(), OrchError>) -> (Model, Seq<ActionView>) {
    if m.prov is AwaitBuild {
        match res {
            Ok(_) => (
                Model { prov: ProvStep::AwaitCreate, build_ok: true, ..m },
                seq![ActionView::CreateContainer(container_spec_view(m.cfg))],
            ),
            Err(e) => (Model { prov: ProvStep::Failed, ..m }, seq![status(error_text_view(e))]),
        }
    } else {
        (m, Seq::empty())
    }
}

/// React to the outcome of creating the container: success starts it;
/// failure aborts the round.
pub open spec fn on_container_created(m: Model, res: Result<(), OrchError>) -> (
    Model,
    Seq<ActionView>,
) {
    if m.prov is AwaitCreate {
        match res {
            Ok(_) => (
                Model {
                    prov: ProvStep::AwaitStartFresh,
                    create_ok: true,
                    starts_issued: m.starts_issued + 1,
                    ..m
                },
                seq![ActionView::StartContainer],
            ),
            Err(e) => (Model { prov: ProvStep::Failed, ..m }, seq![status(error_text_view(e))]),
        }
    } else {
        (m, Seq::empty())
    }
}

/// React to the manifest file's contents: present contents are forwarded
/// exactly; an unreadable manifest is a soft error for an existing
/// container and no error at all for a freshly created one.  Either way the
/// round completes, the sandbox is ready, and queued work starts draining.
pub open spec fn on_manifest(m: Model, contents: Option<Seq<char>>) -> (Model, Seq<ActionView>) {
    if m.prov is AwaitManifestExisting || m.prov is AwaitManifestFresh {
        let acts = match contents {
            Some(t) => seq![ActionView::Notify(NotificationView::ImportsLoaded(t))],
            None => if m.prov is AwaitManifestExisting {
                seq![status("manifest unreadable"@)]
            } else {
                Seq::empty()
            },
        };
        let (m2, acts2) = dispatch_head(Model { prov: ProvStep::Done, ..m });
        (m2, acts + acts2)
    } else {
        (m, Seq::empty())
    }
}

/// Finish the current request without output — its write or exec failed —
/// report why, and move on to the next queued request.
pub open spec fn finish_failed(m: Model, r: RequestView, e: OrchError) -> (
    Model,
    Seq<ActionView>,
) {
    let acts = seq![
        status(error_text_view(e)),
        ActionView::Notify(NotificationView::ExecutionEnded),
    ];
    let (m2, acts2) = dispatch_head(
        Model { work: JobState::Idle, processed: m.processed.push(r), ..m },
    );
    (m2, acts + acts2)
}

/// React to the outcome of the current request's file write: a confirmed
/// write updates the file model and issues the exec; a failed write leaves
/// the file contents unknown and finishes the request with a filesystem
/// error.
pub open spec fn on_file_written(m: Model, ok: bool) -> (Model, Seq<ActionView>) {
    match m.work {
        JobState::Writing(r) => {
            if ok {
                match r {
                    RequestView::Exec(code) => (
                        Model {
                            work: JobState::Running(r),
                            code_file: Some(trimmed(code)),
                            ..m
                        },
                        seq![ActionView::CreateExec(code_command_view(m.cfg))],
                    ),
                    RequestView::ImportDependencies(manifest) => (
                        Model {
                            work: JobState::Running(r),
                            manifest_file: Some(manifest),
                            ..m
                        },
                        seq![ActionView::CreateExec(install_command_view(m.cfg))],
                    ),
                    RequestView::Start => (m, Seq::empty()),
                }
            } else {
                let m1 = match r {
                    RequestView::Exec(_) => Model { code_file: None, ..m },
                    _ => Model { manifest_file: None, ..m },
                };
                finish_failed(m1, r, OrchError::FilesystemError)
            }
        },
        _ => (m, Seq::empty()),
    }
}

/// React to the outcome of `CreateExec`: a started exec streams its output
/// next; a rejected one finishes the request with no output — no spurious
/// success is reported.
pub open spec fn on_exec_started(m: Model, res: Result<(), OrchError>) -> (
    Model,
    Seq<ActionView>,
) {
    match m.work {
        JobState::Running(r) => match res {
            Ok(_) => (m, Seq::empty()),
            Err(e) => finish_failed(m, r, e),
        },
        _ => (m, Seq::empty()),
    }
}

/// Append one output chunk, in arrival order, to the current exec's buffer.
pub open spec fn on_output_chunk(m: Model, chunk: Seq<char>) -> (Model, Seq<ActionView>) {
    match m.work {
        JobState::Running(_) => (Model { out_buf: m.out_buf + chunk, ..m }, Seq::empty()),
        _ => (m, Seq::empty()),
    }
}

/// The exec's stream is fully drained: report the concatenated output,
/// finish the request and move on to the next queued one.
pub open spec fn on_exec_ended(m: Model) -> (Model, Seq<ActionView>) {
    match m.work {
        JobState::Running(r) => {
            let acts = seq![
                ActionView::Notify(NotificationView::Output(m.out_buf)),
                ActionView::Notify(NotificationView::ExecutionEnded),
            ];
            let (m2, acts2) = dispatch_head(
                Model { work: JobState::Idle, processed: m.processed.push(r), ..m },
            );
            (m2, acts + acts2)
        },
        _ => (m, Seq::empty()),
    }
}

/// Issue the one shutdown stop of the sandbox container, bounded by the
/// configured grace period; later calls do nothing.
pub open spec fn on_shutdown(m: Model) -> (Model, Seq<ActionView>) {
    if !m.stopped {
        (
            Model { stopped: true, ..m },
            seq![ActionView::StopContainer(m.cfg.stop_timeout_secs)],
        )
    } else {
        (m, Seq::empty())
    }
}

/// The whole transition function: one event, one transition.
pub open spec fn step(m: Model, e: EventView) -> (Model, Seq<ActionView>) {
    match e {
        EventView::Submit(r) => on_submit(m, r),
        EventView::Containers(res) => on_containers(m, res),
        EventView::ContainerStarted(res) => on_container_started(m, res),
        EventView::ImageBuilt(res) => on_image_built(m, res),
        EventView::ContainerCreated(res) => on_container_created(m, res),
        EventView::ManifestLoaded(contents) => on_manifest(m, contents),
        EventView::FileWritten(ok) => on_file_written(m, ok),
        EventView::ExecStarted(res) => on_exec_started(m, res),
        EventView::OutputChunk(chunk) => on_output_chunk(m, chunk),
        EventView::ExecEnded => on_exec_ended(m),
    }
}

/// The state after feeding a whole sequence of events, first to last.
pub open spec fn run(m: Model, events: Seq<EventView>) -> Model
    decreases events.len(),
{
    if events.len() == 0 {
        m
    } else {
        run(step(m, events[0]).0, events.drop_first())
    }
}

/// Per-step constraints of the provisioner's history within one round.
pub open spec fn prov_inv(m: Model) -> bool {
    &&& match m.prov {
        ProvStep::NotStarted => true,
        ProvStep::AwaitContainers => m.builds_issued == 0 && m.starts_issued == 0,
        ProvStep::AwaitStartExisting => m.branch == Some(false) && m.starts_issued == 1,
        ProvStep::AwaitManifestExisting => m.branch == Some(false) && m.starts_issued == 1
            && m.start_ok,
        ProvStep::AwaitBuild => m.branch == Some(true),
        ProvStep::AwaitCreate => m.branch == Some(true) && m.build_ok,
        ProvStep::AwaitStartFresh => m.branch == Some(true) && m.build_ok && m.create_ok,
        ProvStep::AwaitManifestFresh => m.branch == Some(true) && m.build_ok && m.create_ok
            && m.start_ok,
        ProvStep::Failed => true,
        ProvStep::Done => m.branch is Some && m.start_ok && (m.branch == Some(true)
            ==> m.build_ok && m.create_ok) && (m.branch == Some(false) ==> m.starts_issued == 1),
    }
    &&& m.branch == Some(false) ==> m.builds_issued == 0
}

/// Well-formedness of the orchestrator's state.
///
/// The first conjunct is the FIFO invariant: the accepted requests are
/// exactly the processed ones, then the one being processed, then the
/// queued ones, in order.  The second keeps the exec pipeline idle whenever
/// the sandbox is not ready; the third says only `Exec` and
/// `ImportDependencies` requests occupy the pipeline; the last carries the
/// provisioning round's history.
pub open spec fn wf(m: Model) -> bool {
    &&& m.submitted == m.processed + current(m) + m.queue
    &&& m.phase() != Phase::Ready ==> m.work is Idle
    &&& match m.work {
        JobState::Idle => true,
        JobState::Writing(r) => !(r is Start),
        JobState::Running(r) => !(r is Start),
    }
    &&& prov_inv(m)
}

} // verus!
