//! The executable orchestrator.
//!
//! One instance owns the sandbox container's lifecycle.  The unverified
//! shell around the library runs the worker loop: it feeds every user
//! request and every runtime outcome into `handle` (or the per-event
//! methods) and performs the returned actions.  Each method is total and
//! takes the orchestrator through exactly one transition of the model in
//! `crate::model`, so the laws proved there — FIFO processing, at most one
//! exec in flight, exact file contents — hold of this type.

use vstd::prelude::*;
use vstd::string::*;

use crate::config::OrchConfig;
use crate::laws::lemma_init_wf;
use crate::model;
use crate::model::{init, wf, JobState, Model, Phase, ProvStep};
use crate::msgs::{Action, Event, NotificationEvent, OrchError, RequestView, WorkRequest};
use crate::text::{trim_snippet, trimmed};

verus! {

/// What the exec pipeline currently holds: nothing, a request whose file
/// write is pending, or a request whose exec is streaming output.
enum Job {
    Idle,
    Writing(WorkRequest),
    Running(WorkRequest),
}

impl View for Job {
    type V = JobState;

    closed spec fn view(&self) -> JobState {
        match self {
            Job::Idle => JobState::Idle,
            Job::Writing(r) => JobState::Writing(r@),
            Job::Running(r) => JobState::Running(r@),
        }
    }
}

/// The sandboxed-execution orchestrator: provisioner, exec pipeline and
/// command router in one event-driven state machine.
pub struct Orchestrator {
    cfg: OrchConfig,
    prov: ProvStep,
    work: Job,
    queue: Vec<WorkRequest>,
    out_buf: String,
    stopped: bool,
    code_file: Ghost<Option<Seq<char>>>,
    manifest_file: Ghost<Option<Seq<char>>>,
    submitted: Ghost<Seq<RequestView>>,
    processed: Ghost<Seq<RequestView>>,
    branch: Ghost<Option<bool>>,
    build_ok: Ghost<bool>,
    create_ok: Ghost<bool>,
    start_ok: Ghost<bool>,
    builds_issued: Ghost<nat>,
    starts_issued: Ghost<nat>,
}

impl View for Orchestrator {
    type V = Model;

    closed spec fn view(&self) -> Model {
        Model {
            cfg: self.cfg@,
            prov: self.prov,
            work: self.work@,
            queue: self.queue.deep_view(),
            submitted: self.submitted@,
            processed: self.processed@,
            out_buf: self.out_buf@,
            code_file: self.code_file@,
            manifest_file: self.manifest_file@,
            branch: self.branch@,
            build_ok: self.build_ok@,
            create_ok: self.create_ok@,
            start_ok: self.start_ok@,
            builds_issued: self.builds_issued@,
            starts_issued: self.starts_issued@,
            stopped: self.stopped,
        }
    }
}

impl Orchestrator {
    /// A fresh orchestrator: nothing triggered, nothing queued, the working
    /// directory's files unwritten.
    pub fn new(cfg: OrchConfig) -> (orch: Self)
        ensures
            orch@ == init(cfg@),
            wf(orch@),
    {
        let orch = Orchestrator {
            cfg,
            prov: ProvStep::NotStarted,
            work: Job::Idle,
            queue: Vec::new(),
            out_buf: String::new(),
            stopped: false,
            code_file: Ghost(None),
            manifest_file: Ghost(None),
            submitted: Ghost(Seq::empty()),
            processed: Ghost(Seq::empty()),
            branch: Ghost(None),
            build_ok: Ghost(false),
            create_ok: Ghost(false),
            start_ok: Ghost(false),
            builds_issued: Ghost(0),
            starts_issued: Ghost(0),
        };
        proof {
            assert(orch@ =~= init(orch.cfg@));
            lemma_init_wf(orch.cfg@);
        }
        orch
    }

    /// The externally visible state: uninitialized, provisioning, or ready.
    pub fn phase(&self) -> (p: Phase)
        ensures
            p == self@.phase(),
    {
        match self.prov {
            ProvStep::NotStarted => Phase::Uninitialized,
            ProvStep::Done => Phase::Ready,
            _ => Phase::Provisioning,
        }
    }

    /// How many accepted requests are waiting in the queue.
    pub fn pending(&self) -> (n: usize)
        ensures
            n == self@.queue.len(),
    {
        self.queue.len()
    }

    fn trigger_provision_exec(&mut self) -> (acts: Vec<Action>)
        ensures
            final(self)@ == model::trigger_provision(old(self)@).0,
            acts.deep_view() == model::trigger_provision(old(self)@).1,
    {
        self.prov = ProvStep::AwaitContainers;
        self.branch = Ghost(None);
        self.build_ok = Ghost(false);
        self.create_ok = Ghost(false);
        self.start_ok = Ghost(false);
        self.builds_issued = Ghost(0);
        self.starts_issued = Ghost(0);
        let mut acts: Vec<Action> = Vec::new();
        acts.push(Action::ListContainers(self.cfg.list_filter()));
        proof {
            assert(self@ =~= model::trigger_provision(old(self)@).0);
            assert(acts.deep_view() =~~= model::trigger_provision(old(self)@).1);
        }
        acts
    }

    fn dispatch_job_exec(&mut self, r: WorkRequest) -> (acts: Vec<Action>)
        ensures
            final(self)@ == model::dispatch_job(old(self)@, r@).0,
            acts.deep_view() == model::dispatch_job(old(self)@, r@).1,
    {
        let write = match &r {
            WorkRequest::Exec(code) => Some(Action::WriteCodeFile(trim_snippet(code.as_str()))),
            WorkRequest::ImportDependencies(manifest) => Some(
                Action::WriteManifestFile(manifest.clone()),
            ),
            WorkRequest::Start => None,
        };
        match write {
            Some(w) => {
                self.work = Job::Writing(r);
                self.out_buf = String::new();
                let mut acts: Vec<Action> = Vec::new();
                acts.push(Action::Notify(NotificationEvent::ExecutionStarted));
                acts.push(w);
                proof {
                    assert(self@ =~= model::dispatch_job(old(self)@, r@).0);
                    assert(acts.deep_view() =~~= model::dispatch_job(old(self)@, r@).1);
                }
                acts
            },
            None => {
                let acts: Vec<Action> = Vec::new();
                proof {
                    assert(acts.deep_view() =~~= model::dispatch_job(old(self)@, r@).1);
                }
                acts
            },
        }
    }

    fn dispatch_head_exec(&mut self) -> (acts: Vec<Action>)
        ensures
            final(self)@ == model::dispatch_head(old(self)@).0,
            acts.deep_view() == model::dispatch_head(old(self)@).1,
    {
        if matches!(self.prov, ProvStep::Done) && matches!(&self.work, Job::Idle)
            && self.queue.len() > 0 {
            let r = self.queue.remove(0);
            proof {
                assert(self.queue.deep_view() =~= old(self)@.queue.drop_first());
            }
            match r {
                WorkRequest::Start => {
                    self.processed = Ghost(self.processed@.push(RequestView::Start));
                    let acts = self.trigger_provision_exec();
                    proof {
                        assert(self@ =~= model::dispatch_head(old(self)@).0);
                        assert(acts.deep_view() =~~= model::dispatch_head(old(self)@).1);
                    }
                    acts
                },
                other => {
                    let ghost m1 = self@;
                    let acts = self.dispatch_job_exec(other);
                    proof {
                        assert(m1 =~= Model { queue: old(self)@.queue.drop_first(), ..old(self)@ });
                        assert(self@ =~= model::dispatch_head(old(self)@).0);
                        assert(acts.deep_view() =~~= model::dispatch_head(old(self)@).1);
                    }
                    acts
                },
            }
        } else {
            let acts: Vec<Action> = Vec::new();
            proof {
                assert(acts.deep_view() =~~= model::dispatch_head(old(self)@).1);
            }
            acts
        }
    }

    fn enqueue_and_dispatch(&mut self, r: WorkRequest) -> (acts: Vec<Action>)
        ensures
            final(self)@ == model::dispatch_head(model::enqueue(old(self)@, r@)).0,
            acts.deep_view() == model::dispatch_head(model::enqueue(old(self)@, r@)).1,
    {
        let ghost rv = r@;
        self.submitted = Ghost(self.submitted@.push(rv));
        self.queue.push(r);
        let ghost mq = self@;
        let acts = self.dispatch_head_exec();
        proof {
            assert(mq =~= model::enqueue(old(self)@, rv));
        }
        acts
    }

    /// Accept one user request.  `Exec` and `ImportDependencies` join the
    /// queue — and are dispatched at once when the sandbox is ready and
    /// idle; a `Start` re-triggers provisioning after a failure, queues
    /// like any other request while the sandbox is ready, and is dropped
    /// while a provisioning round is already underway.
    pub fn submit(&mut self, r: WorkRequest) -> (acts: Vec<Action>)
        ensures
            final(self)@ == model::on_submit(old(self)@, r@).0,
            acts.deep_view() == model::on_submit(old(self)@, r@).1,
    {
        match r {
            WorkRequest::Start => {
                if matches!(self.prov, ProvStep::NotStarted | ProvStep::Failed) {
                    self.trigger_provision_exec()
                } else if matches!(self.prov, ProvStep::Done) {
                    self.enqueue_and_dispatch(WorkRequest::Start)
                } else {
                    let acts: Vec<Action> = Vec::new();
                    proof {
                        assert(acts.deep_view() =~~= model::on_submit(old(self)@, r@).1);
                    }
                    acts
                }
            },
            other => self.enqueue_and_dispatch(other),
        }
    }

    /// React to the container listing: an existing container is started, an
    /// absent one is built and created; a listing failure aborts the round.
    pub fn on_containers(&mut self, res: Result<usize, OrchError>) -> (acts: Vec<Action>)
        ensures
            final(self)@ == model::on_containers(old(self)@, res).0,
            acts.deep_view() == model::on_containers(old(self)@, res).1,
    {
        if matches!(self.prov, ProvStep::AwaitContainers) {
            match res {
                Ok(n) => {
                    if n > 0 {
                        self.prov = ProvStep::AwaitStartExisting;
                        self.branch = Ghost(Some(false));
                        self.starts_issued = Ghost(self.starts_issued@ + 1);
                        let mut acts: Vec<Action> = Vec::new();
                        acts.push(
                            Action::Notify(
                                NotificationEvent::StatusMessage(
                                    String::from_str("starting container..."),
                                ),
                            ),
                        );
                        acts.push(Action::StartContainer);
                        proof {
                            assert(self@ =~= model::on_containers(old(self)@, res).0);
                            assert(acts.deep_view() =~~= model::on_containers(old(self)@, res).1);
                        }
                        acts
                    } else {
                        self.prov = ProvStep::AwaitBuild;
                        self.branch = Ghost(Some(true));
                        self.builds_issued = Ghost(self.builds_issued@ + 1);
                        let mut acts: Vec<Action> = Vec::new();
                        acts.push(
                            Action::Notify(
                                NotificationEvent::StatusMessage(
                                    String::from_str("building image..."),
                                ),
                            ),
                        );
                        acts.push(Action::BuildImage);
                        proof {
                            assert(self@ =~= model::on_containers(old(self)@, res).0);
                            assert(acts.deep_view() =~~= model::on_containers(old(self)@, res).1);
                        }
                        acts
                    }
                },
                Err(e) => self.fail_round(e),
            }
        } else {
            let acts: Vec<Action> = Vec::new();
            proof {
                assert(acts.deep_view() =~~= model::on_containers(old(self)@, res).1);
            }
            acts
        }
    }

    fn fail_round(&mut self, e: OrchError) -> (acts: Vec<Action>)
        ensures
            final(self)@ == (Model { prov: ProvStep::Failed, ..old(self)@ }),
            acts.deep_view() == seq![model::status(crate::msgs::error_text_view(e))],
    {
        self.prov = ProvStep::Failed;
        let mut acts: Vec<Action> = Vec::new();
        acts.push(Action::Notify(NotificationEvent::StatusMessage(crate::msgs::error_text(e))));
        proof {
            assert(self@ =~= (Model { prov: ProvStep::Failed, ..old(self)@ }));
            assert(acts.deep_view() =~~= seq![model::status(crate::msgs::error_text_view(e))]);
        }
        acts
    }

    /// React to the outcome of a `StartContainer` action: success moves the
    /// round on to loading the manifest; failure aborts the round.
    pub fn on_container_started(&mut self, res: Result<(), OrchError>) -> (acts: Vec<Action>)
        ensures
            final(self)@ == model::on_container_started(old(self)@, res).0,
            acts.deep_view() == model::on_container_started(old(self)@, res).1,
    {
        if matches!(self.prov, ProvStep::AwaitStartExisting) {
            match res {
                Ok(_) => {
                    self.prov = ProvStep::AwaitManifestExisting;
                    self.start_ok = Ghost(true);
                    let mut acts: Vec<Action> = Vec::new();
                    acts.push(
                        Action::Notify(
                            NotificationEvent::StatusMessage(
                                String::from_str("container running"),
                            ),
                        ),
                    );
                    acts.push(Action::ReadManifest);
                    proof {
                        assert(self@ =~= model::on_container_started(old(self)@, res).0);
                        assert(acts.deep_view() =~~= model::on_container_started(
                            old(self)@,
                            res,
                        ).1);
                    }
                    acts
                },
                Err(e) => self.fail_round(e),
            }
        } else if matches!(self.prov, ProvStep::AwaitStartFresh) {
            match res {
                Ok(_) => {
                    self.prov = ProvStep::AwaitManifestFresh;
                    self.start_ok = Ghost(true);
                    let mut acts: Vec<Action> = Vec::new();
                    acts.push(
                        Action::Notify(
                            NotificationEvent::StatusMessage(String::from_str("completed setup")),
                        ),
                    );
                    acts.push(Action::ReadManifest);
                    proof {
                        assert(self@ =~= model::on_container_started(old(self)@, res).0);
                        assert(acts.deep_view() =~~= model::on_container_started(
                            old(self)@,
                            res,
                        ).1);
                    }
                    acts
                },
                Err(e) => self.fail_round(e),
            }
        } else {
            let acts: Vec<Action> = Vec::new();
            proof {
                assert(acts.deep_view() =~~= model::on_container_started(old(self)@, res).1);
            }
            acts
        }
    }

    /// React to the outcome of the image build: success proceeds to
    /// creating the container; failure aborts the round.
    pub fn on_image_built(&mut self, res: Result<(), OrchError>) -> (acts: Vec<Action>)
        ensures
            final(self)@ == model::on_image_built(old(self)@, res).0,
            acts.deep_view() == model::on_image_built(old(self)@, res).1,
    {
        if matches!(self.prov, ProvStep::AwaitBuild) {
            match res {
                Ok(_) => {
                    self.prov = ProvStep::AwaitCreate;
                    self.build_ok = Ghost(true);
                    let mut acts: Vec<Action> = Vec::new();
                    acts.push(Action::CreateContainer(self.cfg.container_spec()));
                    proof {
                        assert(self@ =~= model::on_image_built(old(self)@, res).0);
                        assert(acts.deep_view() =~~= model::on_image_built(old(self)@, res).1);
                    }
                    acts
                },
                Err(e) => self.fail_round(e),
            }
        } else {
            let acts: Vec<Action> = Vec::new();
            proof {
                assert(acts.deep_view() =~~= model::on_image_built(old(self)@, res).1);
            }
            acts
        }
    }

    /// React to the outcome of creating the container: success starts it;
    /// failure aborts the round.
    pub fn on_container_created(&mut self, res: Result<(), OrchError>) -> (acts: Vec<Action>)
        ensures
            final(self)@ == model::on_container_created(old(self)@, res).0,
            acts.deep_view() == model::on_container_created(old(self)@, res).1,
    {
        if matches!(self.prov, ProvStep::AwaitCreate) {
            match res {
                Ok(_) => {
                    self.prov = ProvStep::AwaitStartFresh;
                    self.create_ok = Ghost(true);
                    self.starts_issued = Ghost(self.starts_issued@ + 1);
                    let mut acts: Vec<Action> = Vec::new();
                    acts.push(Action::StartContainer);
                    proof {
                        assert(self@ =~= model::on_container_created(old(self)@, res).0);
                        assert(acts.deep_view() =~~= model::on_container_created(
                            old(self)@,
                            res,
                        ).1);
                    }
                    acts
                },
                Err(e) => self.fail_round(e),
            }
        } else {
            let acts: Vec<Action> = Vec::new();
            proof {
                assert(acts.deep_view() =~~= model::on_container_created(old(self)@, res).1);
            }
            acts
        }
    }

    /// React to the manifest file's contents: present contents are
    /// forwarded exactly via `ImportsLoaded`; an unreadable manifest is a
    /// soft error for an existing container and no error for a fresh one.
    /// Either way the sandbox becomes ready and queued work starts
    /// draining, in submission order.
    pub fn on_manifest_loaded(&mut self, contents: Option<String>) -> (acts: Vec<Action>)
        ensures
            final(self)@ == model::on_manifest(old(self)@, contents.deep_view()).0,
            acts.deep_view() == model::on_manifest(old(self)@, contents.deep_view()).1,
    {
        if matches!(self.prov, ProvStep::AwaitManifestExisting | ProvStep::AwaitManifestFresh) {
            let existing = matches!(self.prov, ProvStep::AwaitManifestExisting);
            let mut acts: Vec<Action> = Vec::new();
            match contents {
                Some(t) => {
                    acts.push(Action::Notify(NotificationEvent::ImportsLoaded(t)));
                },
                None => {
                    if existing {
                        acts.push(
                            Action::Notify(
                                NotificationEvent::StatusMessage(
                                    String::from_str("manifest unreadable"),
                                ),
                            ),
                        );
                    }
                },
            }
            self.prov = ProvStep::Done;
            let ghost mid = self@;
            let ghost head = acts.deep_view();
            let mut tail = self.dispatch_head_exec();
            acts.append(&mut tail);
            proof {
                assert(mid =~= (Model { prov: ProvStep::Done, ..old(self)@ }));
                assert(acts.deep_view() =~~= head + model::dispatch_head(mid).1);
                assert(acts.deep_view() =~~= model::on_manifest(
                    old(self)@,
                    contents.deep_view(),
                ).1);
            }
            acts
        } else {
            let acts: Vec<Action> = Vec::new();
            proof {
                assert(acts.deep_view() =~~= model::on_manifest(
                    old(self)@,
                    contents.deep_view(),
                ).1);
            }
            acts
        }
    }

    fn finish_failed_exec(&mut self, Ghost(rv): Ghost<RequestView>, e: OrchError) -> (acts: Vec<
        Action,
    >)
        requires
            old(self)@.work is Idle,
        ensures
            final(self)@ == model::finish_failed(old(self)@, rv, e).0,
            acts.deep_view() == model::finish_failed(old(self)@, rv, e).1,
    {
        self.processed = Ghost(self.processed@.push(rv));
        let mut acts: Vec<Action> = Vec::new();
        acts.push(Action::Notify(NotificationEvent::StatusMessage(crate::msgs::error_text(e))));
        acts.push(Action::Notify(NotificationEvent::ExecutionEnded));
        let ghost mid = self@;
        let ghost head = acts.deep_view();
        let mut tail = self.dispatch_head_exec();
        acts.append(&mut tail);
        proof {
            assert(mid =~= (Model {
                work: JobState::Idle,
                processed: old(self)@.processed.push(rv),
                ..old(self)@
            }));
            assert(acts.deep_view() =~~= head + model::dispatch_head(mid).1);
            assert(acts.deep_view() =~~= model::finish_failed(old(self)@, rv, e).1);
        }
        acts
    }

    /// React to the outcome of the current request's file write: a
    /// confirmed write issues the exec; a failed one finishes the request
    /// with a filesystem error and moves on.
    pub fn on_file_written(&mut self, ok: bool) -> (acts: Vec<Action>)
        ensures
            final(self)@ == model::on_file_written(old(self)@, ok).0,
            acts.deep_view() == model::on_file_written(old(self)@, ok).1,
    {
        let mut w = Job::Idle;
        core::mem::swap(&mut self.work, &mut w);
        match w {
            Job::Writing(r) => {
                let ghost rv = r@;
                if ok {
                    let cmd = match &r {
                        WorkRequest::Exec(_) => self.cfg.code_command(),
                        _ => self.cfg.install_command(),
                    };
                    match &r {
                        WorkRequest::Exec(code) => {
                            self.code_file = Ghost(Some(trimmed(code@)));
                        },
                        WorkRequest::ImportDependencies(manifest) => {
                            self.manifest_file = Ghost(Some(manifest@));
                        },
                        WorkRequest::Start => {},
                    }
                    let start_again = matches!(&r, WorkRequest::Start);
                    if start_again {
                        self.work = Job::Writing(r);
                        let acts: Vec<Action> = Vec::new();
                        proof {
                            assert(self@ =~= model::on_file_written(old(self)@, ok).0);
                            assert(acts.deep_view() =~~= model::on_file_written(old(self)@, ok).1);
                        }
                        acts
                    } else {
                        self.work = Job::Running(r);
                        let mut acts: Vec<Action> = Vec::new();
                        acts.push(Action::CreateExec(cmd));
                        proof {
                            assert(self@ =~= model::on_file_written(old(self)@, ok).0);
                            assert(acts.deep_view() =~~= model::on_file_written(old(self)@, ok).1);
                        }
                        acts
                    }
                } else {
                    match &r {
                        WorkRequest::Exec(_) => {
                            self.code_file = Ghost(None);
                        },
                        _ => {
                            self.manifest_file = Ghost(None);
                        },
                    }
                    let acts = self.finish_failed_exec(Ghost(rv), OrchError::FilesystemError);
                    proof {
                        assert(self@ =~= model::on_file_written(old(self)@, ok).0);
                        assert(acts.deep_view() =~~= model::on_file_written(old(self)@, ok).1);
                    }
                    acts
                }
            },
            other => {
                self.work = other;
                let acts: Vec<Action> = Vec::new();
                proof {
                    assert(self@ =~= model::on_file_written(old(self)@, ok).0);
                    assert(acts.deep_view() =~~= model::on_file_written(old(self)@, ok).1);
                }
                acts
            },
        }
    }

    /// React to the outcome of `CreateExec`: a started exec streams its
    /// output next; a rejected one finishes the request with no output.
    pub fn on_exec_started(&mut self, res: Result<(), OrchError>) -> (acts: Vec<Action>)
        ensures
            final(self)@ == model::on_exec_started(old(self)@, res).0,
            acts.deep_view() == model::on_exec_started(old(self)@, res).1,
    {
        let mut w = Job::Idle;
        core::mem::swap(&mut self.work, &mut w);
        match w {
            Job::Running(r) => {
                match res {
                    Ok(_) => {
                        self.work = Job::Running(r);
                        let acts: Vec<Action> = Vec::new();
                        proof {
                            assert(self@ =~= model::on_exec_started(old(self)@, res).0);
                            assert(acts.deep_view() =~~= model::on_exec_started(
                                old(self)@,
                                res,
                            ).1);
                        }
                        acts
                    },
                    Err(e) => {
                        let ghost rv = r@;
                        let acts = self.finish_failed_exec(Ghost(rv), e);
                        proof {
                            assert(self@ =~= model::on_exec_started(old(self)@, res).0);
                            assert(acts.deep_view() =~~= model::on_exec_started(
                                old(self)@,
                                res,
                            ).1);
                        }
                        acts
                    },
                }
            },
            other => {
                self.work = other;
                let acts: Vec<Action> = Vec::new();
                proof {
                    assert(self@ =~= model::on_exec_started(old(self)@, res).0);
                    assert(acts.deep_view() =~~= model::on_exec_started(old(self)@, res).1);
                }
                acts
            },
        }
    }

    /// Append one output chunk, in arrival order, to the current exec's
    /// output buffer.
    pub fn on_output_chunk(&mut self, chunk: String) -> (acts: Vec<Action>)
        ensures
            final(self)@ == model::on_output_chunk(old(self)@, chunk@).0,
            acts.deep_view() == model::on_output_chunk(old(self)@, chunk@).1,
    {
        if matches!(&self.work, Job::Running(_)) {
            self.out_buf.append(chunk.as_str());
        }
        let acts: Vec<Action> = Vec::new();
        proof {
            assert(self@ =~= model::on_output_chunk(old(self)@, chunk@).0);
            assert(acts.deep_view() =~~= model::on_output_chunk(old(self)@, chunk@).1);
        }
        acts
    }

    /// The exec's stream is fully drained: report the concatenated output,
    /// finish the request and dispatch the next queued one.
    pub fn on_exec_ended(&mut self) -> (acts: Vec<Action>)
        ensures
            final(self)@ == model::on_exec_ended(old(self)@).0,
            acts.deep_view() == model::on_exec_ended(old(self)@).1,
    {
        let mut w = Job::Idle;
        core::mem::swap(&mut self.work, &mut w);
        match w {
            Job::Running(r) => {
                let ghost rv = r@;
                self.processed = Ghost(self.processed@.push(rv));
                let mut acts: Vec<Action> = Vec::new();
                acts.push(Action::Notify(NotificationEvent::Output(self.out_buf.clone())));
                acts.push(Action::Notify(NotificationEvent::ExecutionEnded));
                let ghost mid = self@;
                let ghost head = acts.deep_view();
                let mut tail = self.dispatch_head_exec();
                acts.append(&mut tail);
                proof {
                    assert(mid =~= (Model {
                        work: JobState::Idle,
                        processed: old(self)@.processed.push(rv),
                        ..old(self)@
                    }));
                    assert(acts.deep_view() =~~= head + model::dispatch_head(mid).1);
                    assert(acts.deep_view() =~~= model::on_exec_ended(old(self)@).1);
                }
                acts
            },
            other => {
                self.work = other;
                let acts: Vec<Action> = Vec::new();
                proof {
                    assert(self@ =~= model::on_exec_ended(old(self)@).0);
                    assert(acts.deep_view() =~~= model::on_exec_ended(old(self)@).1);
                }
                acts
            },
        }
    }

    /// Issue the one bounded-timeout stop of the sandbox container at
    /// shutdown; later calls do nothing.
    pub fn shutdown(&mut self) -> (acts: Vec<Action>)
        ensures
            final(self)@ == model::on_shutdown(old(self)@).0,
            acts.deep_view() == model::on_shutdown(old(self)@).1,
    {
        if !self.stopped {
            self.stopped = true;
            let mut acts: Vec<Action> = Vec::new();
            acts.push(Action::StopContainer(self.cfg.stop_timeout_secs));
            proof {
                assert(self@ =~= model::on_shutdown(old(self)@).0);
                assert(acts.deep_view() =~~= model::on_shutdown(old(self)@).1);
            }
            acts
        } else {
            let acts: Vec<Action> = Vec::new();
            proof {
                assert(acts.deep_view() =~~= model::on_shutdown(old(self)@).1);
            }
            acts
        }
    }

    /// Feed one event — a user request or the outcome of a performed
    /// action — through exactly one transition of the model.
    pub fn handle(&mut self, e: Event) -> (acts: Vec<Action>)
        ensures
            final(self)@ == model::step(old(self)@, e@).0,
            acts.deep_view() == model::step(old(self)@, e@).1,
    {
        match e {
            Event::Submit(r) => self.submit(r),
            Event::Containers(res) => self.on_containers(res),
            Event::ContainerStarted(res) => self.on_container_started(res),
            Event::ImageBuilt(res) => self.on_image_built(res),
            Event::ContainerCreated(res) => self.on_container_created(res),
            Event::ManifestLoaded(contents) => self.on_manifest_loaded(contents),
            Event::FileWritten(ok) => self.on_file_written(ok),
            Event::ExecStarted(res) => self.on_exec_started(res),
            Event::OutputChunk(chunk) => self.on_output_chunk(chunk),
            Event::ExecEnded => self.on_exec_ended(),
        }
    }
}

} // verus!
