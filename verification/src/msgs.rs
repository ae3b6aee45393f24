//! Requests, notifications, runtime actions and runtime events.
//!
//! The orchestrator consumes `WorkRequest`s from the user-interface side and
//! `Event`s reporting the outcome of runtime calls, and emits `Action`s: the
//! runtime calls, file writes and `NotificationEvent`s that the unverified
//! shell must perform.  Every type has a spec-level view over character
//! sequences, so that contracts can speak of exact payloads.

use vstd::prelude::*;
use vstd::string::*;

verus! {

/// A unit of user-originated work, consumed in submission order.
#[derive(Debug, Clone, PartialEq, Eq)]
pub enum WorkRequest {
    /// Run a code snippet inside the sandbox container.
    Exec(String),
    /// Install the dependencies named by a manifest inside the container.
    ImportDependencies(String),
    /// Trigger (or re-trigger) provisioning of the sandbox container.
    Start,
}

/// Spec-level view of a `WorkRequest`.
#[verifier::ext_equal]
pub enum RequestView {
    Exec(Seq<char>),
    ImportDependencies(Seq<char>),
    Start,
}

impl View for WorkRequest {
    type V = RequestView;

    open spec fn view(&self) -> RequestView {
        match self {
            WorkRequest::Exec(code) => RequestView::Exec(code@),
            WorkRequest::ImportDependencies(manifest) => RequestView::ImportDependencies(
                manifest@,
            ),
            WorkRequest::Start => RequestView::Start,
        }
    }
}

impl DeepView for WorkRequest {
    type V = RequestView;

    open spec fn deep_view(&self) -> RequestView {
        self.view()
    }
}

/// How an operation against the runtime or the filesystem failed.
#[derive(Debug, Clone, Copy, PartialEq, Eq, Structural)]
pub enum OrchError {
    /// The runtime daemon could not be reached at all.
    RuntimeUnreachable,
    /// The daemon was reachable but rejected the request.
    RuntimeRejected,
    /// The image build stream reported a failure.
    BuildFailed,
    /// The working directory or one of its files could not be written or read.
    FilesystemError,
}

/// A one-way notification to whatever observes the orchestrator.
#[derive(Debug, Clone, PartialEq, Eq)]
pub enum NotificationEvent {
    /// A human-readable progress or failure message.
    StatusMessage(String),
    /// The full captured output of one exec invocation.
    Output(String),
    /// Processing of one work request has begun.
    ExecutionStarted,
    /// Processing of one work request has ended.
    ExecutionEnded,
    /// The dependency manifest found in the working directory at provisioning.
    ImportsLoaded(String),
}

/// Spec-level view of a `NotificationEvent`.
#[verifier::ext_equal]
pub enum NotificationView {
    StatusMessage(Seq<char>),
    Output(Seq<char>),
    ExecutionStarted,
    ExecutionEnded,
    ImportsLoaded(Seq<char>),
}

impl View for NotificationEvent {
    type V = NotificationView;

    open spec fn view(&self) -> NotificationView {
        match self {
            NotificationEvent::StatusMessage(t) => NotificationView::StatusMessage(t@),
            NotificationEvent::Output(t) => NotificationView::Output(t@),
            NotificationEvent::ExecutionStarted => NotificationView::ExecutionStarted,
            NotificationEvent::ExecutionEnded => NotificationView::ExecutionEnded,
            NotificationEvent::ImportsLoaded(t) => NotificationView::ImportsLoaded(t@),
        }
    }
}

impl DeepView for NotificationEvent {
    type V = NotificationView;

    open spec fn deep_view(&self) -> NotificationView {
        self.view()
    }
}

/// The parameters of the container listing the provisioner issues.
#[derive(Debug, Clone, PartialEq, Eq)]
pub struct ListFilter {
    /// The container name the listing is filtered by.
    pub name: String,
    /// Whether stopped containers match too.
    pub all: bool,
}

/// Spec-level view of a `ListFilter`.
#[verifier::ext_equal]
pub struct ListFilterView {
    pub name: Seq<char>,
    pub all: bool,
}

impl View for ListFilter {
    type V = ListFilterView;

    open spec fn view(&self) -> ListFilterView {
        ListFilterView { name: self.name@, all: self.all }
    }
}

impl DeepView for ListFilter {
    type V = ListFilterView;

    open spec fn deep_view(&self) -> ListFilterView {
        self.view()
    }
}

/// The parameters of the one container creation: name, image, the bind
/// mount of the host working directory, and the terminal/stream flags.
#[derive(Debug, Clone, PartialEq, Eq)]
pub struct ContainerSpec {
    /// The name the container is created under.
    pub name: String,
    /// The image tag the container is created from.
    pub image: String,
    /// The host directory bound into the container.
    pub mount_source: String,
    /// The in-container path the host directory is mounted at.
    pub mount_target: String,
    /// Whether a terminal is allocated.
    pub tty: bool,
    /// Whether stdin is attached.
    pub attach_stdin: bool,
    /// Whether stdout is attached.
    pub attach_stdout: bool,
    /// Whether stderr is attached.
    pub attach_stderr: bool,
    /// Whether stdin is kept open.
    pub open_stdin: bool,
}

/// Spec-level view of a `ContainerSpec`.
#[verifier::ext_equal]
pub struct ContainerSpecView {
    pub name: Seq<char>,
    pub image: Seq<char>,
    pub mount_source: Seq<char>,
    pub mount_target: Seq<char>,
    pub tty: bool,
    pub attach_stdin: bool,
    pub attach_stdout: bool,
    pub attach_stderr: bool,
    pub open_stdin: bool,
}

impl View for ContainerSpec {
    type V = ContainerSpecView;

    open spec fn view(&self) -> ContainerSpecView {
        ContainerSpecView {
            name: self.name@,
            image: self.image@,
            mount_source: self.mount_source@,
            mount_target: self.mount_target@,
            tty: self.tty,
            attach_stdin: self.attach_stdin,
            attach_stdout: self.attach_stdout,
            attach_stderr: self.attach_stderr,
            open_stdin: self.open_stdin,
        }
    }
}

impl DeepView for ContainerSpec {
    type V = ContainerSpecView;

    open spec fn deep_view(&self) -> ContainerSpecView {
        self.view()
    }
}

/// The command line of one exec invocation inside the container.
#[derive(Debug, Clone, PartialEq, Eq)]
pub struct ExecCommand {
    /// The argument vector, program name first.
    pub argv: Vec<String>,
    /// The in-container working directory, where one is required.
    pub workdir: Option<String>,
}

/// Spec-level view of an `ExecCommand`.
#[verifier::ext_equal]
pub struct CommandView {
    pub argv: Seq<Seq<char>>,
    pub workdir: Option<Seq<char>>,
}

impl View for ExecCommand {
    type V = CommandView;

    open spec fn view(&self) -> CommandView {
        CommandView {
            argv: self.argv.deep_view(),
            workdir: match self.workdir {
                Some(d) => Some(d@),
                None => None,
            },
        }
    }
}

impl DeepView for ExecCommand {
    type V = CommandView;

    open spec fn deep_view(&self) -> CommandView {
        self.view()
    }
}

/// One runtime call, file operation or notification that the shell around
/// the library must perform on the orchestrator's behalf.
#[derive(Debug, Clone, PartialEq, Eq)]
pub enum Action {
    /// List the containers matching this filter; report how many matched.
    ListContainers(ListFilter),
    /// Start the configured container.
    StartContainer,
    /// Ensure the host working directory exists, read the build-context
    /// blob, build the image and drain its event stream.
    BuildImage,
    /// Create the container exactly as this spec says: name, image, bind
    /// mount of the working directory, terminal and stream flags.
    CreateContainer(ContainerSpec),
    /// Overwrite the working directory's code file with this exact content.
    WriteCodeFile(String),
    /// Overwrite the working directory's manifest file with this exact content.
    WriteManifestFile(String),
    /// Read the working directory's manifest file, if it is readable.
    ReadManifest,
    /// Create and start one exec with this command line, stdout and stderr
    /// attached, and stream its output back chunk by chunk.
    CreateExec(ExecCommand),
    /// Stop the configured container, waiting at most this many seconds.
    StopContainer(u64),
    /// Forward a notification to the observer.
    Notify(NotificationEvent),
}

/// Spec-level view of an `Action`.
#[verifier::ext_equal]
pub enum ActionView {
    ListContainers(ListFilterView),
    StartContainer,
    BuildImage,
    CreateContainer(ContainerSpecView),
    WriteCodeFile(Seq<char>),
    WriteManifestFile(Seq<char>),
    ReadManifest,
    CreateExec(CommandView),
    StopContainer(u64),
    Notify(NotificationView),
}

impl View for Action {
    type V = ActionView;

    open spec fn view(&self) -> ActionView {
        match self {
            Action::ListContainers(filter) => ActionView::ListContainers(filter@),
            Action::StartContainer => ActionView::StartContainer,
            Action::BuildImage => ActionView::BuildImage,
            Action::CreateContainer(spec) => ActionView::CreateContainer(spec@),
            Action::WriteCodeFile(c) => ActionView::WriteCodeFile(c@),
            Action::WriteManifestFile(m) => ActionView::WriteManifestFile(m@),
            Action::ReadManifest => ActionView::ReadManifest,
            Action::CreateExec(cmd) => ActionView::CreateExec(cmd@),
            Action::StopContainer(secs) => ActionView::StopContainer(*secs),
            Action::Notify(n) => ActionView::Notify(n@),
        }
    }
}

impl DeepView for Action {
    type V = ActionView;

    open spec fn deep_view(&self) -> ActionView {
        self.view()
    }
}

/// One event fed into the orchestrator by the shell: a user request, or the
/// outcome of an action it performed.
#[derive(Debug, PartialEq, Eq)]
pub enum Event {
    /// A user request arrived on the inbound channel.
    Submit(WorkRequest),
    /// Outcome of `ListContainers`: how many containers matched the name.
    Containers(Result<usize, OrchError>),
    /// Outcome of `StartContainer`.
    ContainerStarted(Result<(), OrchError>),
    /// Outcome of `BuildImage`.
    ImageBuilt(Result<(), OrchError>),
    /// Outcome of `CreateContainer`.
    ContainerCreated(Result<(), OrchError>),
    /// Outcome of `ReadManifest`: the manifest file's contents, if readable.
    ManifestLoaded(Option<String>),
    /// Outcome of a `WriteCodeFile` or `WriteManifestFile`: whether the
    /// write succeeded.
    FileWritten(bool),
    /// Outcome of `CreateExec`: whether the exec was created and started
    /// with its output stream attached.
    ExecStarted(Result<(), OrchError>),
    /// One chunk of an attached exec's output stream, in arrival order.
    OutputChunk(String),
    /// The attached exec's output stream is fully drained.
    ExecEnded,
}

/// Spec-level view of an `Event`.
#[verifier::ext_equal]
pub enum EventView {
    Submit(RequestView),
    Containers(Result<usize, OrchError>),
    ContainerStarted(Result<(), OrchError>),
    ImageBuilt(Result<(), OrchError>),
    ContainerCreated(Result<(), OrchError>),
    ManifestLoaded(Option<Seq<char>>),
    FileWritten(bool),
    ExecStarted(Result<(), OrchError>),
    OutputChunk(Seq<char>),
    ExecEnded,
}

impl View for Event {
    type V = EventView;

    open spec fn view(&self) -> EventView {
        match self {
            Event::Submit(r) => EventView::Submit(r@),
            Event::Containers(res) => EventView::Containers(*res),
            Event::ContainerStarted(res) => EventView::ContainerStarted(*res),
            Event::ImageBuilt(res) => EventView::ImageBuilt(*res),
            Event::ContainerCreated(res) => EventView::ContainerCreated(*res),
            Event::ManifestLoaded(m) => EventView::ManifestLoaded(
                match m {
                    Some(t) => Some(t@),
                    None => None,
                },
            ),
            Event::FileWritten(ok) => EventView::FileWritten(*ok),
            Event::ExecStarted(res) => EventView::ExecStarted(*res),
            Event::OutputChunk(c) => EventView::OutputChunk(c@),
            Event::ExecEnded => EventView::ExecEnded,
        }
    }
}

/// The text of the status message reporting a failure.
pub open spec fn error_text_view(e: OrchError) -> Seq<char> {
    match e {
        OrchError::RuntimeUnreachable => "error: container runtime unreachable"@,
        OrchError::RuntimeRejected => "error: container runtime rejected the request"@,
        OrchError::BuildFailed => "error: image build failed"@,
        OrchError::FilesystemError => "error: cannot write working directory"@,
    }
}

/// The human-readable status text for a failure, as surfaced to the observer.
pub fn error_text(e: OrchError) -> (r: String)
    ensures
        r@ == error_text_view(e),
{
    match e {
        OrchError::RuntimeUnreachable => String::from_str("error: container runtime unreachable"),
        OrchError::RuntimeRejected => String::from_str(
            "error: container runtime rejected the request",
        ),
        OrchError::BuildFailed => String::from_str("error: image build failed"),
        OrchError::FilesystemError => String::from_str("error: cannot write working directory"),
    }
}

} // verus!
