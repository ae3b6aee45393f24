//! The orchestrator's laws.
//!
//! Proved over the transition system of `model`: the initial state is
//! well-formed and every step preserves well-formedness, which carries the
//! FIFO ordering of work requests; an exec is only ever created while no
//! other exec is in flight; the existing-container branch never builds an
//! image and starts the container exactly once; the fresh branch reaches
//! readiness only after build, create and start all succeeded; a failed
//! provisioning round dispatches nothing until a new `Start` request; and
//! the file writes carry exactly the trimmed code or the verbatim manifest.

use vstd::prelude::*;

use crate::config::{list_filter_view, ConfigView};
use crate::model::{
    current, dispatch_head, finish_failed, init, on_exec_ended, on_file_written, on_manifest,
    on_output_chunk, on_shutdown, on_submit, run, step, trigger_provision, wf, JobState, Model,
    Phase, ProvStep,
};
use crate::msgs::{ActionView, EventView, NotificationView, OrchError, RequestView};
use crate::text::{lemma_trimmed_idempotent, trimmed};

verus! {

/// A freshly constructed orchestrator is well-formed.
pub proof fn lemma_init_wf(cfg: ConfigView)
    ensures
        wf(init(cfg)),
{
    assert(init(cfg).submitted =~= init(cfg).processed + current(init(cfg)) + init(cfg).queue);
}

proof fn lemma_trigger_provision_wf(m: Model)
    requires
        wf(m),
        m.work is Idle,
    ensures
        wf(trigger_provision(m).0),
{
    let m2 = trigger_provision(m).0;
    assert(m2.submitted =~= m2.processed + current(m2) + m2.queue);
}

proof fn lemma_dispatch_head_wf(m: Model)
    requires
        wf(m),
    ensures
        wf(dispatch_head(m).0),
{
    if m.phase() == Phase::Ready && m.work is Idle && m.queue.len() > 0 {
        let r = m.queue[0];
        let m1 = Model { queue: m.queue.drop_first(), ..m };
        match r {
            RequestView::Start => {
                let mp = Model { processed: m1.processed.push(r), ..m1 };
                assert(mp.submitted =~= mp.processed + current(mp) + mp.queue);
                assert(wf(mp));
                lemma_trigger_provision_wf(mp);
            },
            _ => {
                let m2 = dispatch_head(m).0;
                assert(m2.submitted =~= m2.processed + current(m2) + m2.queue);
            },
        }
    }
}

proof fn lemma_finish_failed_wf(m: Model, r: RequestView, e: OrchError)
    requires
        wf(m),
        m.work == JobState::Writing(r) || m.work == JobState::Running(r),
    ensures
        wf(finish_failed(m, r, e).0),
{
    let mi = Model { work: JobState::Idle, processed: m.processed.push(r), ..m };
    assert(mi.submitted =~= mi.processed + current(mi) + mi.queue);
    lemma_dispatch_head_wf(mi);
}

/// Every transition preserves well-formedness — in particular the FIFO
/// invariant: at all times the accepted requests are exactly the processed
/// ones followed by the one in progress followed by the queue, in original
/// submission order.
pub proof fn lemma_step_preserves_wf(m: Model, e: EventView)
    requires
        wf(m),
    ensures
        wf(step(m, e).0),
{
    match e {
        EventView::Submit(r) => {
            match r {
                RequestView::Start => {
                    if m.prov is NotStarted || m.prov is Failed {
                        lemma_trigger_provision_wf(m);
                    } else if m.phase() == Phase::Ready {
                        let mq = Model {
                            queue: m.queue.push(r),
                            submitted: m.submitted.push(r),
                            ..m
                        };
                        assert(mq.submitted =~= mq.processed + current(mq) + mq.queue);
                        assert(wf(mq));
                        lemma_dispatch_head_wf(mq);
                    }
                },
                _ => {
                    let mq = Model { queue: m.queue.push(r), submitted: m.submitted.push(r), ..m };
                    assert(mq.submitted =~= mq.processed + current(mq) + mq.queue);
                    assert(wf(mq));
                    lemma_dispatch_head_wf(mq);
                },
            }
        },
        EventView::Containers(_res) => {
        },
        EventView::ContainerStarted(_res) => {
        },
        EventView::ImageBuilt(_res) => {
        },
        EventView::ContainerCreated(_res) => {
        },
        EventView::ManifestLoaded(_contents) => {
            if m.prov is AwaitManifestExisting || m.prov is AwaitManifestFresh {
                let md = Model { prov: ProvStep::Done, ..m };
                assert(wf(md));
                lemma_dispatch_head_wf(md);
            }
        },
        EventView::FileWritten(ok) => {
            match m.work {
                JobState::Writing(r) => {
                    if !ok {
                        let m1 = match r {
                            RequestView::Exec(_) => Model { code_file: None, ..m },
                            _ => Model { manifest_file: None, ..m },
                        };
                        assert(wf(m1));
                        lemma_finish_failed_wf(m1, r, OrchError::FilesystemError);
                    }
                },
                _ => {},
            }
        },
        EventView::ExecStarted(res) => {
            match m.work {
                JobState::Running(r) => {
                    match res {
                        Ok(_) => {},
                        Err(err) => {
                            lemma_finish_failed_wf(m, r, err);
                        },
                    }
                },
                _ => {},
            }
        },
        EventView::OutputChunk(_chunk) => {
        },
        EventView::ExecEnded => {
            match m.work {
                JobState::Running(r) => {
                    let mi = Model { work: JobState::Idle, processed: m.processed.push(r), ..m };
                    assert(mi.submitted =~= mi.processed + current(mi) + mi.queue);
                    assert(wf(mi));
                    lemma_dispatch_head_wf(mi);
                },
                _ => {},
            }
        },
    }
}

/// Well-formedness holds along every possible history: feeding any
/// sequence of events to a well-formed orchestrator leaves it well-formed.
pub proof fn lemma_run_preserves_wf(m: Model, events: Seq<EventView>)
    requires
        wf(m),
    ensures
        wf(run(m, events)),
    decreases events.len(),
{
    if events.len() > 0 {
        lemma_step_preserves_wf(m, events[0]);
        lemma_run_preserves_wf(step(m, events[0]).0, events.drop_first());
    }
}

/// The FIFO guarantee over whole histories: whatever sequence of requests
/// and runtime outcomes a freshly constructed orchestrator is fed, the
/// processed requests are always an exact prefix of the accepted ones, in
/// original submission order.
pub proof fn lemma_fifo_over_any_history(cfg: ConfigView, events: Seq<EventView>)
    ensures
        wf(run(init(cfg), events)),
        run(init(cfg), events).processed == run(init(cfg), events).submitted.take(
            run(init(cfg), events).processed.len() as int,
        ),
{
    lemma_init_wf(cfg);
    lemma_run_preserves_wf(init(cfg), events);
    lemma_processed_is_prefix(run(init(cfg), events));
}

/// FIFO processing: in a well-formed state the processed requests are an
/// exact prefix of the accepted ones — work is finished in submission
/// order, never reordered.
pub proof fn lemma_processed_is_prefix(m: Model)
    requires
        wf(m),
    ensures
        m.processed.len() <= m.submitted.len(),
        m.processed == m.submitted.take(m.processed.len() as int),
{
    assert(m.processed =~= m.submitted.take(m.processed.len() as int));
}

proof fn lemma_dispatch_head_no_exec(m: Model)
    ensures
        forall|i: int|
            0 <= i < dispatch_head(m).1.len() ==> !(dispatch_head(m).1[i] is CreateExec),
{
}

proof fn lemma_finish_failed_no_exec(m: Model, r: RequestView, e: OrchError)
    ensures
        forall|i: int|
            0 <= i < finish_failed(m, r, e).1.len() ==> !(finish_failed(m, r, e).1[i]
                is CreateExec),
{
    let mi = Model { work: JobState::Idle, processed: m.processed.push(r), ..m };
    lemma_dispatch_head_no_exec(mi);
}

/// While a request is being processed, a newly submitted `Exec` or
/// `ImportDependencies` only joins the queue: nothing is dispatched, no
/// action is issued, and the request in progress is untouched.
pub proof fn lemma_submit_while_busy_only_queues(m: Model, r: RequestView)
    requires
        wf(m),
        !(m.work is Idle),
        !(r is Start),
    ensures
        on_submit(m, r).0.queue == m.queue.push(r),
        on_submit(m, r).0.work == m.work,
        on_submit(m, r).0.processed == m.processed,
        on_submit(m, r).1 == Seq::<ActionView>::empty(),
{
    assert(on_submit(m, r).1 =~= Seq::<ActionView>::empty());
}

/// While the sandbox is still provisioning, a newly submitted `Exec` or
/// `ImportDependencies` is only buffered, and the round itself is not
/// disturbed.
pub proof fn lemma_submit_while_provisioning_only_queues(m: Model, r: RequestView)
    requires
        wf(m),
        m.phase() != Phase::Ready,
        !(r is Start),
    ensures
        on_submit(m, r).0.queue == m.queue.push(r),
        on_submit(m, r).0.prov == m.prov,
        on_submit(m, r).0.processed == m.processed,
        on_submit(m, r).1 == Seq::<ActionView>::empty(),
{
    assert(on_submit(m, r).1 =~= Seq::<ActionView>::empty());
}

/// At most one exec is ever in flight.  A step emits a `CreateExec` only
/// while no other exec is running — the previous exec's stream was fully
/// drained (`ExecEnded`) or it never attached — only once the sandbox is
/// ready and the current request's file write is confirmed, and a single
/// step never emits two.
pub proof fn lemma_one_exec_in_flight(m: Model, e: EventView)
    requires
        wf(m),
    ensures
        forall|i: int|
            0 <= i < step(m, e).1.len() && step(m, e).1[i] is CreateExec ==> {
                &&& !(m.work is Running)
                &&& m.work is Writing
                &&& m.phase() == Phase::Ready
                &&& e == EventView::FileWritten(true)
                &&& step(m, e).0.work is Running
            },
        forall|i: int, j: int|
            0 <= i < step(m, e).1.len() && 0 <= j < step(m, e).1.len() && step(m, e).1[i]
                is CreateExec && step(m, e).1[j] is CreateExec ==> i == j,
{
    let acts = step(m, e).1;
    match e {
        EventView::Submit(r) => {
            match r {
                RequestView::Start => {
                    if !(m.prov is NotStarted || m.prov is Failed) && m.phase() == Phase::Ready {
                        lemma_dispatch_head_no_exec(
                            Model { queue: m.queue.push(r), submitted: m.submitted.push(r), ..m },
                        );
                    }
                },
                _ => {
                    lemma_dispatch_head_no_exec(
                        Model { queue: m.queue.push(r), submitted: m.submitted.push(r), ..m },
                    );
                },
            }
            assert(forall|i: int| 0 <= i < acts.len() ==> !(acts[i] is CreateExec));
        },
        EventView::Containers(_) => {
            assert(forall|i: int| 0 <= i < acts.len() ==> !(acts[i] is CreateExec));
        },
        EventView::ContainerStarted(_) => {
            assert(forall|i: int| 0 <= i < acts.len() ==> !(acts[i] is CreateExec));
        },
        EventView::ImageBuilt(_) => {
            assert(forall|i: int| 0 <= i < acts.len() ==> !(acts[i] is CreateExec));
        },
        EventView::ContainerCreated(_) => {
            assert(forall|i: int| 0 <= i < acts.len() ==> !(acts[i] is CreateExec));
        },
        EventView::ManifestLoaded(_) => {
            if m.prov is AwaitManifestExisting || m.prov is AwaitManifestFresh {
                lemma_dispatch_head_no_exec(Model { prov: ProvStep::Done, ..m });
            }
            assert(forall|i: int| 0 <= i < acts.len() ==> !(acts[i] is CreateExec));
        },
        EventView::FileWritten(ok) => {
            match m.work {
                JobState::Writing(r) => {
                    if !ok {
                        let m1 = match r {
                            RequestView::Exec(_) => Model { code_file: None, ..m },
                            _ => Model { manifest_file: None, ..m },
                        };
                        lemma_finish_failed_no_exec(m1, r, OrchError::FilesystemError);
                        assert(forall|i: int| 0 <= i < acts.len() ==> !(acts[i] is CreateExec));
                    }
                },
                _ => {},
            }
        },
        EventView::ExecStarted(res) => {
            match m.work {
                JobState::Running(r) => {
                    if res is Err {
                        lemma_finish_failed_no_exec(m, r, res->Err_0);
                        assert(forall|i: int| 0 <= i < acts.len() ==> !(acts[i] is CreateExec));
                    }
                },
                _ => {},
            }
        },
        EventView::OutputChunk(_) => {
        },
        EventView::ExecEnded => {
            match m.work {
                JobState::Running(r) => {
                    lemma_dispatch_head_no_exec(
                        Model { work: JobState::Idle, processed: m.processed.push(r), ..m },
                    );
                    assert(forall|i: int| 0 <= i < acts.len() ==> !(acts[i] is CreateExec));
                },
                _ => {},
            }
        },
    }
}

/// The existing-container branch never builds: a step emits `BuildImage`
/// only while the round is waiting for the container listing and the
/// listing came back empty, committing the round to the fresh branch.
pub proof fn lemma_build_only_fresh_branch(m: Model, e: EventView)
    requires
        wf(m),
    ensures
        forall|i: int|
            0 <= i < step(m, e).1.len() && step(m, e).1[i] is BuildImage ==> {
                &&& m.prov is AwaitContainers
                &&& step(m, e).0.branch == Some(true)
            },
{
}

/// Once ready through the existing-container branch, the round issued
/// exactly one `StartContainer` and no `BuildImage` at all.
pub proof fn lemma_ready_existing_branch(m: Model)
    requires
        wf(m),
        m.phase() == Phase::Ready,
        m.branch == Some(false),
    ensures
        m.starts_issued == 1,
        m.builds_issued == 0,
{
}

/// The fresh branch reaches readiness only after the image build, the
/// container creation and the container start all reported success.
pub proof fn lemma_ready_fresh_branch(m: Model)
    requires
        wf(m),
        m.phase() == Phase::Ready,
        m.branch == Some(true),
    ensures
        m.build_ok,
        m.create_ok,
        m.start_ok,
{
}

/// Readiness is never reached without a successful container start.
pub proof fn lemma_ready_needs_start(m: Model)
    requires
        wf(m),
        m.phase() == Phase::Ready,
    ensures
        m.start_ok,
        m.branch is Some,
{
}

/// After a provisioning round fails — for instance because the existing
/// container would not start — the system stays in `Provisioning`, nothing
/// queued is dispatched and no action at all is issued, until a new `Start`
/// request re-triggers the round.
pub proof fn lemma_failed_round_blocks(m: Model, e: EventView)
    requires
        wf(m),
        m.prov is Failed,
        e != EventView::Submit(RequestView::Start),
    ensures
        step(m, e).0.prov is Failed,
        step(m, e).0.phase() == Phase::Provisioning,
        step(m, e).0.work is Idle,
        step(m, e).0.processed == m.processed,
        step(m, e).1 == Seq::<ActionView>::empty(),
{
    assert(step(m, e).1 =~= Seq::<ActionView>::empty());
}

/// A `Start` request submitted after a failed round re-triggers exactly one
/// new round: the container listing is issued again and the round's history
/// is reset.
pub proof fn lemma_failed_round_restarts(m: Model)
    requires
        wf(m),
        m.prov is Failed,
    ensures
        step(m, EventView::Submit(RequestView::Start)).0.prov is AwaitContainers,
        step(m, EventView::Submit(RequestView::Start)).0.queue == m.queue,
        step(m, EventView::Submit(RequestView::Start)).1 =~= seq![
            ActionView::ListContainers(list_filter_view(m.cfg)),
        ],
{
}

/// Dispatching a code request writes exactly the trimmed snippet, and a
/// request carrying the already trimmed snippet writes the very same
/// contents: trimming is idempotent.
pub proof fn lemma_code_write_trimmed(m: Model, code: Seq<char>)
    requires
        wf(m),
        m.phase() == Phase::Ready,
        m.work is Idle,
        m.queue.len() == 0,
    ensures
        on_submit(m, RequestView::Exec(code)).1 =~= seq![
            ActionView::Notify(NotificationView::ExecutionStarted),
            ActionView::WriteCodeFile(trimmed(code)),
        ],
        on_submit(m, RequestView::Exec(trimmed(code))).1 == on_submit(
            m,
            RequestView::Exec(code),
        ).1,
{
    lemma_trimmed_idempotent(code);
    assert(on_submit(m, RequestView::Exec(trimmed(code))).1 =~= on_submit(
        m,
        RequestView::Exec(code),
    ).1);
}

/// Dispatching a manifest request writes the manifest verbatim — no
/// trimming — and once the write is confirmed the working directory's
/// manifest file holds exactly that text.
pub proof fn lemma_manifest_write_verbatim(m: Model, manifest: Seq<char>)
    requires
        wf(m),
        m.phase() == Phase::Ready,
        m.work is Idle,
        m.queue.len() == 0,
    ensures
        on_submit(m, RequestView::ImportDependencies(manifest)).1 =~= seq![
            ActionView::Notify(NotificationView::ExecutionStarted),
            ActionView::WriteManifestFile(manifest),
        ],
        on_file_written(
            on_submit(m, RequestView::ImportDependencies(manifest)).0,
            true,
        ).0.manifest_file == Some(manifest),
{
}

/// Round trip of an installed manifest: when a later provisioning round
/// finds the existing container and reads back the manifest file the
/// library last wrote, it forwards exactly that text via `ImportsLoaded`.
pub proof fn lemma_manifest_round_trip(m: Model, manifest: Seq<char>)
    requires
        wf(m),
        m.prov is AwaitManifestExisting,
        m.manifest_file == Some(manifest),
    ensures
        on_manifest(m, m.manifest_file).1[0] == ActionView::Notify(
            NotificationView::ImportsLoaded(manifest),
        ),
{
}

/// Output chunks are concatenated in arrival order: streaming `a` then `b`
/// extends the exec's buffer by exactly `a + b`, and when the stream ends
/// the single `Output` notification carries the whole buffer.
pub proof fn lemma_output_in_arrival_order(m: Model, a: Seq<char>, b: Seq<char>)
    requires
        wf(m),
        m.work is Running,
    ensures
        on_output_chunk(on_output_chunk(m, a).0, b).0.out_buf == m.out_buf + a + b,
        on_exec_ended(m).1[0] == ActionView::Notify(NotificationView::Output(m.out_buf)),
{
    assert(on_output_chunk(on_output_chunk(m, a).0, b).0.out_buf =~= m.out_buf + a + b);
}

/// The shutdown stop is issued exactly once, whatever state the
/// orchestrator is in and however often shutdown is signalled.
pub proof fn lemma_stop_issued_once(m: Model)
    requires
        wf(m),
    ensures
        !m.stopped ==> on_shutdown(m).1 =~= seq![
            ActionView::StopContainer(m.cfg.stop_timeout_secs),
        ],
        m.stopped ==> on_shutdown(m).1 == Seq::<ActionView>::empty(),
        on_shutdown(on_shutdown(m).0).1 == Seq::<ActionView>::empty(),
{
    assert(on_shutdown(on_shutdown(m).0).1 =~= Seq::<ActionView>::empty());
}

} // verus!
