//! Commands on files and folders: the read-only flag, and showing a folder in
//! the system's file explorer.

use crate::error::{
    missing_file_prefix, missing_folder_prefix, no_opener_message, CommandError,
    CommandErrorView, ErrorKind,
};
use crate::host::{finish_with, reply_of_done, Progress, ProgressView, Request, RequestView, Step, StepView};
use vstd::prelude::*;

verus! {

/// The operating systems that differ in how a folder is shown.
#[derive(Clone, Copy, Debug, PartialEq, Eq, Structural)]
pub enum Platform {
    Windows,
    MacOs,
    Linux,
    /// Any other system: none of the known openers applies.
    Other,
}

/// The program that shows a folder on `platform`, where one is known.
pub open spec fn opener_of(platform: Platform) -> Option<Seq<char>> {
    match platform {
        Platform::Windows => Some("explorer"@),
        Platform::MacOs => Some("open"@),
        Platform::Linux => Some("xdg-open"@),
        Platform::Other => None,
    }
}

/// The program that shows a folder on `platform`, where one is known.
pub fn opener_program(platform: Platform) -> (program: Option<&'static str>)
    ensures
        match program {
            Some(name) => opener_of(platform) == Some(name@),
            None => opener_of(platform) is None,
        },
{
    match platform {
        Platform::Windows => Some("explorer"),
        Platform::MacOs => Some("open"),
        Platform::Linux => Some("xdg-open"),
        Platform::Other => None,
    }
}

/// The failure for a path that names nothing, as a plain value.
pub open spec fn not_found(prefix: Seq<char>, path: Seq<char>) -> CommandErrorView {
    CommandErrorView { kind: ErrorKind::NotFound, message: prefix + path }
}

/// What `set_file_readonly` says next, given the answers so far: probe the
/// path; fail if nothing is there; else have the flag set, and reply with how
/// that ended.
pub open spec fn set_file_readonly_plan(
    file_path: Seq<char>,
    readonly: bool,
    seen: ProgressView,
) -> StepView<()> {
    match seen.found {
        None => StepView::Ask(RequestView::ProbePath { path: file_path }),
        Some(false) => StepView::Finish(Err(not_found(missing_file_prefix(), file_path))),
        Some(true) => if seen.done.len() == 0 {
            StepView::Ask(RequestView::SetReadonly { path: file_path, readonly })
        } else {
            reply_of_done(seen.done[0])
        },
    }
}

/// Sets or removes the read-only flag of a file.
pub fn set_file_readonly(file_path: &str, readonly: bool, seen: &Progress) -> (step: Step<()>)
    ensures
        step@ == set_file_readonly_plan(file_path@, readonly, seen@),
{
    match seen.found {
        None => Step::Ask(Request::ProbePath { path: file_path.to_owned() }),
        Some(false) => Step::Finish(Err(CommandError::missing_file(file_path))),
        Some(true) => match seen.first_done() {
            None => Step::Ask(Request::SetReadonly { path: file_path.to_owned(), readonly }),
            Some(done) => finish_with(done),
        },
    }
}

/// What `is_file_readonly` says next, given the answers so far: probe the
/// path; fail if nothing is there; else have the flag read, and reply with it
/// or with the failure to read it.
pub open spec fn is_file_readonly_plan(file_path: Seq<char>, seen: ProgressView) -> StepView<bool> {
    match seen.found {
        None => StepView::Ask(RequestView::ProbePath { path: file_path }),
        Some(false) => StepView::Finish(Err(not_found(missing_file_prefix(), file_path))),
        Some(true) => match seen.flag {
            None => StepView::Ask(RequestView::GetReadonly { path: file_path }),
            Some(Ok(readonly)) => StepView::Finish(Ok(readonly)),
            Some(Err(message)) => StepView::Finish(
                Err(CommandErrorView { kind: ErrorKind::Os, message }),
            ),
        },
    }
}

/// Tells whether a file has the read-only flag.
pub fn is_file_readonly(file_path: &str, seen: &Progress) -> (step: Step<bool>)
    ensures
        step@ == is_file_readonly_plan(file_path@, seen@),
{
    match seen.found {
        None => Step::Ask(Request::ProbePath { path: file_path.to_owned() }),
        Some(false) => Step::Finish(Err(CommandError::missing_file(file_path))),
        Some(true) => match &seen.flag {
            None => Step::Ask(Request::GetReadonly { path: file_path.to_owned() }),
            Some(Ok(readonly)) => Step::Finish(Ok(*readonly)),
            Some(Err(message)) => Step::Finish(Err(CommandError::os(message.clone()))),
        },
    }
}

/// The failure on a platform that has no program to show a folder with, as a
/// plain value.
pub open spec fn no_opener() -> CommandErrorView {
    CommandErrorView { kind: ErrorKind::Os, message: no_opener_message() }
}

/// What `open_folder` says next, given the answers so far: probe the path;
/// fail if nothing is there; else have the platform's opener started on the
/// path, and reply with how the start ended. Where the platform has no known
/// opener, nothing is started and the command fails, saying so.
pub open spec fn open_folder_plan(
    folder_path: Seq<char>,
    platform: Platform,
    seen: ProgressView,
) -> StepView<()> {
    match seen.found {
        None => StepView::Ask(RequestView::ProbePath { path: folder_path }),
        Some(false) => StepView::Finish(Err(not_found(missing_folder_prefix(), folder_path))),
        Some(true) => match opener_of(platform) {
            None => StepView::Finish(Err(no_opener())),
            Some(program) => if seen.done.len() == 0 {
                StepView::Ask(RequestView::Launch { program, argument: folder_path })
            } else {
                reply_of_done(seen.done[0])
            },
        },
    }
}

/// Opens a folder in the system's file explorer.
pub fn open_folder(folder_path: &str, platform: Platform, seen: &Progress) -> (step: Step<()>)
    ensures
        step@ == open_folder_plan(folder_path@, platform, seen@),
{
    match seen.found {
        None => Step::Ask(Request::ProbePath { path: folder_path.to_owned() }),
        Some(false) => Step::Finish(Err(CommandError::missing_folder(folder_path))),
        Some(true) => match opener_program(platform) {
            None => Step::Finish(Err(CommandError::no_opener())),
            Some(program) => match seen.first_done() {
                None => Step::Ask(
                    Request::Launch {
                        program: program.to_owned(),
                        argument: folder_path.to_owned(),
                    },
                ),
                Some(done) => finish_with(done),
            },
        },
    }
}

} // verus!
