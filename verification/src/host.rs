//! What a command asks of the host process, and what the host answers.

use crate::error::{CommandError, CommandErrorView, ErrorKind};
use vstd::prelude::*;

verus! {

/// One piece of work that only the host process can do.
#[derive(Debug, PartialEq, Eq)]
pub enum Request {
    /// Does anything exist at `path`?
    ProbePath { path: String },
    /// Read the read-only flag of what is at `path`.
    GetReadonly { path: String },
    /// Make the read-only flag of what is at `path` equal to `readonly`,
    /// leaving every other permission as it is.
    SetReadonly { path: String, readonly: bool },
    /// Start `program` with the one argument `argument`, and do not wait for it.
    Launch { program: String, argument: String },
    /// End the application with the exit code `code`.
    Exit { code: i32 },
    /// Look up the window labelled `label`.
    FindWindow { label: String },
    /// Let the user close the window, or not.
    SetClosable { closable: bool },
    /// Is the window maximized?
    IsMaximized,
    /// Maximize the window.
    Maximize,
    /// Give the window its normal size back.
    Unmaximize,
    /// Is the window in fullscreen mode?
    IsFullscreen,
    /// Enter or leave fullscreen mode.
    SetFullscreen { fullscreen: bool },
    /// Is the window minimized?
    IsMinimized,
    /// Bring the window back from the minimized state.
    Unminimize,
    /// Make the window visible.
    Show,
    /// Give the window the input focus.
    SetFocus,
}

/// A request as a plain value.
pub enum RequestView {
    ProbePath { path: Seq<char> },
    GetReadonly { path: Seq<char> },
    SetReadonly { path: Seq<char>, readonly: bool },
    Launch { program: Seq<char>, argument: Seq<char> },
    Exit { code: i32 },
    FindWindow { label: Seq<char> },
    SetClosable { closable: bool },
    IsMaximized,
    Maximize,
    Unmaximize,
    IsFullscreen,
    SetFullscreen { fullscreen: bool },
    IsMinimized,
    Unminimize,
    Show,
    SetFocus,
}

impl View for Request {
    type V = RequestView;

    open spec fn view(&self) -> RequestView {
        match self {
            Request::ProbePath { path } => RequestView::ProbePath { path: path@ },
            Request::GetReadonly { path } => RequestView::GetReadonly { path: path@ },
            Request::SetReadonly { path, readonly } => RequestView::SetReadonly {
                path: path@,
                readonly: *readonly,
            },
            Request::Launch { program, argument } => RequestView::Launch {
                program: program@,
                argument: argument@,
            },
            Request::Exit { code } => RequestView::Exit { code: *code },
            Request::FindWindow { label } => RequestView::FindWindow { label: label@ },
            Request::SetClosable { closable } => RequestView::SetClosable { closable: *closable },
            Request::IsMaximized => RequestView::IsMaximized,
            Request::Maximize => RequestView::Maximize,
            Request::Unmaximize => RequestView::Unmaximize,
            Request::IsFullscreen => RequestView::IsFullscreen,
            Request::SetFullscreen { fullscreen } => RequestView::SetFullscreen {
                fullscreen: *fullscreen,
            },
            Request::IsMinimized => RequestView::IsMinimized,
            Request::Unminimize => RequestView::Unminimize,
            Request::Show => RequestView::Show,
            Request::SetFocus => RequestView::SetFocus,
        }
    }
}

/// What the host reports back for one request.
#[derive(Debug, PartialEq, Eq)]
pub enum Answer {
    /// For `ProbePath` and `FindWindow`: whether the thing is there.
    Found(bool),
    /// For `GetReadonly`, `IsMaximized`, `IsFullscreen` and `IsMinimized`: the
    /// flag that was read, or the operating system's message.
    Flag(Result<bool, String>),
    /// For every other request: that it was done, or the operating system's
    /// message.
    Done(Result<(), String>),
}

/// An answer as a plain value.
pub enum AnswerView {
    Found(bool),
    Flag(Result<bool, Seq<char>>),
    Done(Result<(), Seq<char>>),
}

/// `answer` is of the kind that the host answers `request` with.
pub open spec fn answers(request: RequestView, answer: AnswerView) -> bool {
    match request {
        RequestView::ProbePath { .. } | RequestView::FindWindow { .. } => answer is Found,
        RequestView::GetReadonly { .. }
        | RequestView::IsMaximized
        | RequestView::IsFullscreen
        | RequestView::IsMinimized => answer is Flag,
        _ => answer is Done,
    }
}

/// The outcome of a read, with the message as a plain value.
pub open spec fn flag_view(flag: Result<bool, String>) -> Result<bool, Seq<char>> {
    match flag {
        Ok(value) => Ok(value),
        Err(message) => Err(message@),
    }
}

/// The outcome of a change, with the message as a plain value.
pub open spec fn done_view(done: Result<(), String>) -> Result<(), Seq<char>> {
    match done {
        Ok(_) => Ok(()),
        Err(message) => Err(message@),
    }
}

impl View for Answer {
    type V = AnswerView;

    open spec fn view(&self) -> AnswerView {
        match self {
            Answer::Found(found) => AnswerView::Found(*found),
            Answer::Flag(flag) => AnswerView::Flag(flag_view(*flag)),
            Answer::Done(done) => AnswerView::Done(done_view(*done)),
        }
    }
}

/// What the host has answered so far during one run of a command.
#[derive(Debug, PartialEq, Eq)]
pub struct Progress {
    /// Whether the path or the window was there; empty until the host has
    /// looked.
    pub found: Option<bool>,
    /// The flag that was read; empty until the host has read one.
    pub flag: Option<Result<bool, String>>,
    /// How each change that the host was asked for ended, oldest first.
    pub done: Vec<Result<(), String>>,
}

/// The answers so far as plain values.
pub struct ProgressView {
    pub found: Option<bool>,
    pub flag: Option<Result<bool, Seq<char>>>,
    pub done: Seq<Result<(), Seq<char>>>,
}

impl ProgressView {
    /// Nothing answered yet.
    pub open spec fn start() -> ProgressView {
        ProgressView { found: None, flag: None, done: Seq::empty() }
    }

    /// The answers so far together with `answer`.
    pub open spec fn record(self, answer: AnswerView) -> ProgressView {
        match answer {
            AnswerView::Found(found) => ProgressView { found: Some(found), ..self },
            AnswerView::Flag(flag) => ProgressView { flag: Some(flag), ..self },
            AnswerView::Done(done) => ProgressView { done: self.done.push(done), ..self },
        }
    }
}

impl View for Progress {
    type V = ProgressView;

    open spec fn view(&self) -> ProgressView {
        ProgressView {
            found: self.found,
            flag: match self.flag {
                Some(flag) => Some(flag_view(flag)),
                None => None,
            },
            done: self.done@.map_values(|done: Result<(), String>| done_view(done)),
        }
    }
}

impl Progress {
    /// The state in which every command begins: nothing answered yet.
    pub fn new() -> (progress: Progress)
        ensures
            progress@ == ProgressView::start(),
    {
        let progress = Progress { found: None, flag: None, done: Vec::new() };
        assert(progress@.done =~= Seq::empty());
        progress
    }

    /// Takes in the host's answer to the request that was pending.
    pub fn record(self, answer: Answer) -> (progress: Progress)
        ensures
            progress@ == self@.record(answer@),
    {
        match answer {
            Answer::Found(found) => Progress { found: Some(found), flag: self.flag, done: self.done },
            Answer::Flag(flag) => Progress { found: self.found, flag: Some(flag), done: self.done },
            Answer::Done(outcome) => {
                let mut done = self.done;
                done.push(outcome);
                assert(done@.map_values(|done: Result<(), String>| done_view(done))
                    =~= self@.done.push(done_view(outcome)));
                Progress { found: self.found, flag: self.flag, done }
            },
        }
    }

    /// How the first change ended, once the host has answered it.
    pub fn first_done(&self) -> (done: Option<&Result<(), String>>)
        ensures
            match done {
                Some(outcome) => self@.done.len() > 0 && done_view(*outcome) == self@.done[0],
                None => self@.done.len() == 0,
            },
    {
        if self.done.len() == 0 {
            None
        } else {
            Some(&self.done[0])
        }
    }
}

/// What a command says next: a request for the host, or its reply.
#[derive(Debug, PartialEq, Eq)]
pub enum Step<T> {
    /// The host is to carry out the request and record its answer.
    Ask(Request),
    /// The command is over; this is what the caller gets.
    Finish(Result<T, CommandError>),
}

/// A step as a plain value.
pub enum StepView<T> {
    Ask(RequestView),
    Finish(Result<T, CommandErrorView>),
}

impl<T> View for Step<T> {
    type V = StepView<T>;

    open spec fn view(&self) -> StepView<T> {
        match self {
            Step::Ask(request) => StepView::Ask(request@),
            Step::Finish(Ok(value)) => StepView::Finish(Ok(*value)),
            Step::Finish(Err(error)) => StepView::Finish(Err(error@)),
        }
    }
}

/// The reply of a command whose last request ended as `done`: success as it
/// is, a failure with the operating system's message.
pub open spec fn reply_of_done(done: Result<(), Seq<char>>) -> StepView<()> {
    match done {
        Ok(_) => StepView::Finish(Ok(())),
        Err(message) => StepView::Finish(
            Err(CommandErrorView { kind: ErrorKind::Os, message }),
        ),
    }
}

/// Ends a command with the outcome of its last request.
pub fn finish_with(done: &Result<(), String>) -> (step: Step<()>)
    ensures
        step@ == reply_of_done(done_view(*done)),
{
    match done {
        Ok(_) => Step::Finish(Ok(())),
        Err(message) => Step::Finish(Err(CommandError::os(message.clone()))),
    }
}

} // verus!
