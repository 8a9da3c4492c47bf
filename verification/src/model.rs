//! A model of the host, and what running a command against it leads to.
//!
//! The model is a host that carries out every request as asked and that nothing
//! else changes in the meantime. The laws in `laws` are stated over it.

use crate::error::CommandErrorView;
use crate::host::{answers, AnswerView, ProgressView, RequestView, StepView};
use crate::window::main_window_label;
use vstd::prelude::*;

verus! {

/// The flags of the main window.
pub struct WindowState {
    pub closable: bool,
    pub maximized: bool,
    pub fullscreen: bool,
    pub minimized: bool,
    pub visible: bool,
    pub focused: bool,
}

/// The part of the machine that the commands read and change.
pub struct Desktop {
    /// The read-only flag of everything that exists, by path.
    pub files: Map<Seq<char>, bool>,
    /// The main window, if there is one.
    pub window: Option<WindowState>,
    /// Whether the application is still running.
    pub running: bool,
    /// The programs started so far, each with its argument, oldest first.
    pub launched: Seq<(Seq<char>, Seq<char>)>,
}

/// The answer to a change that was carried out.
pub open spec fn done() -> AnswerView {
    AnswerView::Done(Ok(()))
}

/// The answer to a request about something that is not there. The model leaves
/// the message empty.
pub open spec fn refused(request: RequestView) -> AnswerView {
    match request {
        RequestView::GetReadonly { .. }
        | RequestView::IsMaximized
        | RequestView::IsFullscreen
        | RequestView::IsMinimized => AnswerView::Flag(Err(Seq::empty())),
        _ => AnswerView::Done(Err(Seq::empty())),
    }
}

impl Desktop {
    /// What the host answers when it is asked `request` in this state.
    pub open spec fn answer(self, request: RequestView) -> AnswerView {
        match request {
            RequestView::ProbePath { path } => AnswerView::Found(self.files.contains_key(path)),
            RequestView::GetReadonly { path } => if self.files.contains_key(path) {
                AnswerView::Flag(Ok(self.files[path]))
            } else {
                refused(request)
            },
            RequestView::SetReadonly { path, .. } => if self.files.contains_key(path) {
                done()
            } else {
                refused(request)
            },
            RequestView::Launch { .. } => done(),
            RequestView::Exit { .. } => done(),
            RequestView::FindWindow { label } => AnswerView::Found(
                label == main_window_label() && self.window is Some,
            ),
            RequestView::IsMaximized => match self.window {
                Some(window) => AnswerView::Flag(Ok(window.maximized)),
                None => refused(request),
            },
            RequestView::IsFullscreen => match self.window {
                Some(window) => AnswerView::Flag(Ok(window.fullscreen)),
                None => refused(request),
            },
            RequestView::IsMinimized => match self.window {
                Some(window) => AnswerView::Flag(Ok(window.minimized)),
                None => refused(request),
            },
            _ => if self.window is Some {
                done()
            } else {
                refused(request)
            },
        }
    }

    /// The main window after `request`, given that it was `window` before.
    pub open spec fn window_after(window: WindowState, request: RequestView) -> WindowState {
        match request {
            RequestView::SetClosable { closable } => WindowState { closable, ..window },
            RequestView::Maximize => WindowState { maximized: true, ..window },
            RequestView::Unmaximize => WindowState { maximized: false, ..window },
            RequestView::SetFullscreen { fullscreen } => WindowState { fullscreen, ..window },
            RequestView::Unminimize => WindowState { minimized: false, ..window },
            RequestView::Show => WindowState { visible: true, ..window },
            RequestView::SetFocus => WindowState { focused: true, ..window },
            _ => window,
        }
    }

    /// The state in which the host is after it has carried out `request`.
    pub open spec fn after(self, request: RequestView) -> Desktop {
        match request {
            RequestView::SetReadonly { path, readonly } => if self.files.contains_key(path) {
                Desktop { files: self.files.insert(path, readonly), ..self }
            } else {
                self
            },
            RequestView::Launch { program, argument } => Desktop {
                launched: self.launched.push((program, argument)),
                ..self
            },
            RequestView::Exit { .. } => Desktop { running: false, ..self },
            _ => match self.window {
                Some(window) => Desktop {
                    window: Some(Self::window_after(window, request)),
                    ..self
                },
                None => self,
            },
        }
    }
}

/// How a run ends: the state it leaves the host in, and the command's reply,
/// if the command came to one.
pub struct Outcome<T> {
    pub desktop: Desktop,
    pub reply: Option<Result<T, CommandErrorView>>,
}

/// The run that left the host as `desktop` and replied with `value`.
pub open spec fn succeeded<T>(desktop: Desktop, value: T) -> Outcome<T> {
    Outcome { desktop, reply: Some(Ok(value)) }
}

/// The run that left the host as `desktop` and replied with the failure
/// `error`.
pub open spec fn failed<T>(desktop: Desktop, error: CommandErrorView) -> Outcome<T> {
    Outcome { desktop, reply: Some(Err(error)) }
}

/// Goes on with a run from the answers `seen`: as long as the command asks for
/// something, the host carries it out and its answer is recorded. At most
/// `limit` requests are carried out.
pub open spec fn run_from<T>(
    plan: spec_fn(ProgressView) -> StepView<T>,
    desktop: Desktop,
    seen: ProgressView,
    limit: nat,
) -> Outcome<T>
    decreases limit,
{
    match plan(seen) {
        StepView::Finish(reply) => Outcome { desktop, reply: Some(reply) },
        StepView::Ask(request) => if limit == 0 {
            Outcome { desktop, reply: None }
        } else {
            run_from(
                plan,
                desktop.after(request),
                seen.record(desktop.answer(request)),
                (limit - 1) as nat,
            )
        },
    }
}

/// Whatever the host answers, as long as each answer is of the kind of its
/// request, the command that has seen `seen` comes to its reply after at most
/// `limit` more requests.
pub open spec fn replies_within<T>(
    plan: spec_fn(ProgressView) -> StepView<T>,
    seen: ProgressView,
    limit: nat,
) -> bool
    decreases limit,
{
    match plan(seen) {
        StepView::Finish(_) => true,
        StepView::Ask(request) => limit > 0 && forall|answer: AnswerView|
            #[trigger] answers(request, answer) ==> replies_within(
                plan,
                seen.record(answer),
                (limit - 1) as nat,
            ),
    }
}

/// The most requests that any command makes in one run.
pub open spec fn most_requests() -> nat {
    5
}

/// One whole run of a command: from no answers at all to its reply.
pub open spec fn run<T>(plan: spec_fn(ProgressView) -> StepView<T>, desktop: Desktop) -> Outcome<T> {
    run_from(plan, desktop, ProgressView::start(), most_requests())
}

} // verus!
