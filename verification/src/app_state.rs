//! The observer-side view of the orchestrator.
//!
//! `AppState` is the state a user interface keeps while watching the
//! orchestrator: the text being edited, the latest status line, the latest
//! captured output, and whether a request is being processed.  Applying the
//! orchestrator's notifications to it is plain, exactly specified data
//! flow, so any front end wired through `apply` renders what the
//! orchestrator reported and nothing else.

use vstd::prelude::*;
use vstd::string::*;

use crate::msgs::{NotificationEvent, NotificationView, WorkRequest};

verus! {

/// What an interface shows: editors, status line, output pane, spinner.
#[derive(Debug, Clone)]
pub struct AppState {
    /// Character count of the dependency-manifest editor's contents.
    pub import_box_chars: u64,
    /// The dependency-manifest editor's contents.
    pub import_box: String,
    /// The code editor's contents.
    pub text_box: String,
    /// The latest captured exec output.
    pub output_box: String,
    /// Whether the sandbox is still being provisioned.
    pub loading: bool,
    /// The latest status message.
    pub loading_msg: String,
    /// Whether a work request is currently being processed.
    pub processing: bool,
    /// When the editors were last touched, as the interface counts time.
    pub edited_timestamp: u64,
}

/// Spec-level view of an `AppState`.
#[verifier::ext_equal]
pub struct AppStateView {
    pub import_box_chars: u64,
    pub import_box: Seq<char>,
    pub text_box: Seq<char>,
    pub output_box: Seq<char>,
    pub loading: bool,
    pub loading_msg: Seq<char>,
    pub processing: bool,
    pub edited_timestamp: u64,
}

impl View for AppState {
    type V = AppStateView;

    open spec fn view(&self) -> AppStateView {
        AppStateView {
            import_box_chars: self.import_box_chars,
            import_box: self.import_box@,
            text_box: self.text_box@,
            output_box: self.output_box@,
            loading: self.loading,
            loading_msg: self.loading_msg@,
            processing: self.processing,
            edited_timestamp: self.edited_timestamp,
        }
    }
}

/// How one notification changes the interface state: a status message
/// lands in the status line, output in the output pane, the processing
/// flag brackets each request, and a loaded manifest fills the manifest
/// editor along with its character count.
pub open spec fn applied(s: AppStateView, n: NotificationView) -> AppStateView {
    match n {
        NotificationView::StatusMessage(t) => AppStateView { loading_msg: t, ..s },
        NotificationView::Output(t) => AppStateView { output_box: t, ..s },
        NotificationView::ExecutionStarted => AppStateView { processing: true, ..s },
        NotificationView::ExecutionEnded => AppStateView { processing: false, ..s },
        NotificationView::ImportsLoaded(t) => AppStateView {
            import_box: t,
            import_box_chars: t.len() as u64,
            ..s
        },
    }
}

impl AppState {
    /// A blank interface: empty editors, no status, nothing processing.
    pub fn new() -> (s: Self)
        ensures
            s@.import_box_chars == 0,
            s@.import_box == Seq::<char>::empty(),
            s@.text_box == Seq::<char>::empty(),
            s@.output_box == Seq::<char>::empty(),
            !s@.loading,
            s@.loading_msg == Seq::<char>::empty(),
            !s@.processing,
            s@.edited_timestamp == 0,
    {
        AppState {
            import_box_chars: 0,
            import_box: String::new(),
            text_box: String::new(),
            output_box: String::new(),
            loading: false,
            loading_msg: String::new(),
            processing: false,
            edited_timestamp: 0,
        }
    }

    /// Apply one notification from the orchestrator.
    pub fn apply(&mut self, n: NotificationEvent)
        ensures
            final(self)@ == applied(old(self)@, n@),
    {
        match n {
            NotificationEvent::StatusMessage(t) => {
                self.loading_msg = t;
            },
            NotificationEvent::Output(t) => {
                self.output_box = t;
            },
            NotificationEvent::ExecutionStarted => {
                self.processing = true;
            },
            NotificationEvent::ExecutionEnded => {
                self.processing = false;
            },
            NotificationEvent::ImportsLoaded(t) => {
                let count = t.as_str().unicode_len();
                self.import_box_chars = count as u64;
                self.import_box = t;
            },
        }
        proof {
            assert(self@ =~= applied(old(self)@, n@));
        }
    }

    /// The request a key press in the code editor submits: the editor's
    /// contents, but only while nothing else is being processed.
    pub fn on_key_down(&self) -> (r: Option<WorkRequest>)
        ensures
            self@.processing ==> r is None,
            !self@.processing ==> r == Some(WorkRequest::Exec(self.text_box)),
    {
        if !self.processing {
            Some(WorkRequest::Exec(self.text_box.clone()))
        } else {
            None
        }
    }
}

} // verus!
