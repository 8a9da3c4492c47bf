//! Commands on the application's main window. The window is looked up anew in
//! every run of a command; where there is none, the command succeeds and asks
//! for nothing more.

use crate::error::{CommandError, CommandErrorView, ErrorKind};
use crate::host::{finish_with, reply_of_done, Progress, ProgressView, Request, RequestView, Step, StepView};
use vstd::prelude::*;

verus! {

/// The label of the one window that the commands act on.
pub open spec fn main_window_label() -> Seq<char> {
    "main"@
}

/// The request that looks the main window up.
pub open spec fn find_main_window() -> RequestView {
    RequestView::FindWindow { label: main_window_label() }
}

/// The plan shared by the commands that change the window without reading it
/// first: look the window up; succeed at once if there is none; else ask for
/// `change`, and reply with how it ended.
pub open spec fn change_window_plan(change: RequestView, seen: ProgressView) -> StepView<()> {
    match seen.found {
        None => StepView::Ask(find_main_window()),
        Some(false) => StepView::Finish(Ok(())),
        Some(true) => if seen.done.len() == 0 {
            StepView::Ask(change)
        } else {
            reply_of_done(seen.done[0])
        },
    }
}

/// The change that `toggle_maximize` asks for when the window's maximized flag
/// is `maximized`.
pub open spec fn maximize_toggle(maximized: bool) -> RequestView {
    if maximized {
        RequestView::Unmaximize
    } else {
        RequestView::Maximize
    }
}

/// The plan shared by the two toggles: look the window up; succeed at once if
/// there is none; else ask `query`; fail if the flag could not be read; else
/// ask for the change that `toggle` gives for the flag, and reply with how it
/// ended.
pub open spec fn toggle_window_plan(
    query: RequestView,
    toggle: spec_fn(bool) -> RequestView,
    seen: ProgressView,
) -> StepView<()> {
    match seen.found {
        None => StepView::Ask(find_main_window()),
        Some(false) => StepView::Finish(Ok(())),
        Some(true) => match seen.flag {
            None => StepView::Ask(query),
            Some(Err(message)) => StepView::Finish(
                Err(CommandErrorView { kind: ErrorKind::Os, message }),
            ),
            Some(Ok(flag)) => if seen.done.len() == 0 {
                StepView::Ask(toggle(flag))
            } else {
                reply_of_done(seen.done[0])
            },
        },
    }
}

/// What `close_window` says next: nothing is asked unless `force` is set; with
/// `force`, the host is asked to exit with code 0, and the command succeeds
/// whatever the host answers.
pub open spec fn close_window_plan(force: bool, seen: ProgressView) -> StepView<()> {
    if force && seen.done.len() == 0 {
        StepView::Ask(RequestView::Exit { code: 0 })
    } else {
        StepView::Finish(Ok(()))
    }
}

/// What `allow_close` says next.
pub open spec fn allow_close_plan(seen: ProgressView) -> StepView<()> {
    change_window_plan(RequestView::SetClosable { closable: true }, seen)
}

/// What `prevent_close` says next.
pub open spec fn prevent_close_plan(seen: ProgressView) -> StepView<()> {
    change_window_plan(RequestView::SetClosable { closable: false }, seen)
}

/// What `toggle_maximize` says next.
pub open spec fn toggle_maximize_plan(seen: ProgressView) -> StepView<()> {
    toggle_window_plan(RequestView::IsMaximized, |maximized: bool| maximize_toggle(maximized), seen)
}

/// What `maximize_window` says next.
pub open spec fn maximize_window_plan(seen: ProgressView) -> StepView<()> {
    change_window_plan(RequestView::Maximize, seen)
}

/// What `restore_window` says next.
pub open spec fn restore_window_plan(seen: ProgressView) -> StepView<()> {
    change_window_plan(RequestView::Unmaximize, seen)
}

/// What `toggle_fullscreen` says next.
pub open spec fn toggle_fullscreen_plan(seen: ProgressView) -> StepView<()> {
    toggle_window_plan(
        RequestView::IsFullscreen,
        |fullscreen: bool| RequestView::SetFullscreen { fullscreen: !fullscreen },
        seen,
    )
}

/// What `show_at_startup` says next: look the window up; if it is there, ask
/// whether it is minimized; only if it is, ask in turn to unminimize it, to
/// show it and to focus it, going on whatever each answer is. The reply is
/// always success: also where there is no window, where the window is not
/// minimized, and where its state could not be read.
pub open spec fn show_at_startup_plan(seen: ProgressView) -> StepView<()> {
    match seen.found {
        None => StepView::Ask(find_main_window()),
        Some(false) => StepView::Finish(Ok(())),
        Some(true) => match seen.flag {
            None => StepView::Ask(RequestView::IsMinimized),
            Some(Ok(true)) => if seen.done.len() == 0 {
                StepView::Ask(RequestView::Unminimize)
            } else if seen.done.len() == 1 {
                StepView::Ask(RequestView::Show)
            } else if seen.done.len() == 2 {
                StepView::Ask(RequestView::SetFocus)
            } else {
                StepView::Finish(Ok(()))
            },
            Some(_) => StepView::Finish(Ok(())),
        },
    }
}

/// The request that looks the main window up.
fn ask_for_main_window() -> (step: Step<()>)
    ensures
        step@ == StepView::<()>::Ask(find_main_window()),
{
    Step::Ask(Request::FindWindow { label: "main".to_owned() })
}

/// Runs a command that changes the window without reading it first.
fn change_window(change: Request, seen: &Progress) -> (step: Step<()>)
    ensures
        step@ == change_window_plan(change@, seen@),
{
    match seen.found {
        None => ask_for_main_window(),
        Some(false) => Step::Finish(Ok(())),
        Some(true) => match seen.first_done() {
            None => Step::Ask(change),
            Some(done) => finish_with(done),
        },
    }
}

/// Closes the application if `force` is set, and does nothing otherwise.
pub fn close_window(force: bool, seen: &Progress) -> (step: Step<()>)
    ensures
        step@ == close_window_plan(force, seen@),
{
    if force && seen.done.len() == 0 {
        Step::Ask(Request::Exit { code: 0 })
    } else {
        Step::Finish(Ok(()))
    }
}

/// Lets the user close the main window.
pub fn allow_close(seen: &Progress) -> (step: Step<()>)
    ensures
        step@ == allow_close_plan(seen@),
{
    change_window(Request::SetClosable { closable: true }, seen)
}

/// Keeps the user from closing the main window.
pub fn prevent_close(seen: &Progress) -> (step: Step<()>)
    ensures
        step@ == prevent_close_plan(seen@),
{
    change_window(Request::SetClosable { closable: false }, seen)
}

/// Maximizes the main window if it is not maximized, and gives it its normal
/// size back if it is.
pub fn toggle_maximize(seen: &Progress) -> (step: Step<()>)
    ensures
        step@ == toggle_maximize_plan(seen@),
{
    match seen.found {
        None => ask_for_main_window(),
        Some(false) => Step::Finish(Ok(())),
        Some(true) => match &seen.flag {
            None => Step::Ask(Request::IsMaximized),
            Some(Err(message)) => Step::Finish(Err(CommandError::os(message.clone()))),
            Some(Ok(maximized)) => match seen.first_done() {
                None => if *maximized {
                    Step::Ask(Request::Unmaximize)
                } else {
                    Step::Ask(Request::Maximize)
                },
                Some(done) => finish_with(done),
            },
        },
    }
}

/// Maximizes the main window.
pub fn maximize_window(seen: &Progress) -> (step: Step<()>)
    ensures
        step@ == maximize_window_plan(seen@),
{
    change_window(Request::Maximize, seen)
}

/// Gives the main window its normal size back.
pub fn restore_window(seen: &Progress) -> (step: Step<()>)
    ensures
        step@ == restore_window_plan(seen@),
{
    change_window(Request::Unmaximize, seen)
}

/// Puts the main window into fullscreen mode if it is not in it, and takes it
/// out if it is.
pub fn toggle_fullscreen(seen: &Progress) -> (step: Step<()>)
    ensures
        step@ == toggle_fullscreen_plan(seen@),
{
    match seen.found {
        None => ask_for_main_window(),
        Some(false) => Step::Finish(Ok(())),
        Some(true) => match &seen.flag {
            None => Step::Ask(Request::IsFullscreen),
            Some(Err(message)) => Step::Finish(Err(CommandError::os(message.clone()))),
            Some(Ok(fullscreen)) => match seen.first_done() {
                None => Step::Ask(Request::SetFullscreen { fullscreen: !*fullscreen }),
                Some(done) => finish_with(done),
            },
        },
    }
}

/// Brings the main window up when the application starts, if it is minimized:
/// not minimized, visible and focused. A failure on the way is passed over.
pub fn show_at_startup(seen: &Progress) -> (step: Step<()>)
    ensures
        step@ == show_at_startup_plan(seen@),
{
    match seen.found {
        None => ask_for_main_window(),
        Some(false) => Step::Finish(Ok(())),
        Some(true) => match &seen.flag {
            None => Step::Ask(Request::IsMinimized),
            Some(Ok(true)) => {
                let asked: usize = seen.done.len();
                if asked == 0 {
                    Step::Ask(Request::Unminimize)
                } else if asked == 1 {
                    Step::Ask(Request::Show)
                } else if asked == 2 {
                    Step::Ask(Request::SetFocus)
                } else {
                    Step::Finish(Ok(()))
                }
            },
            Some(_) => Step::Finish(Ok(())),
        },
    }
}

} // verus!
