//! What holds of the commands when they run against the modelled host.

use crate::error::{
    contains_text, lemma_message_holds_path, missing_file_prefix, missing_folder_prefix,
};
use crate::files::{
    is_file_readonly_plan, no_opener, not_found, open_folder_plan, opener_of,
    set_file_readonly_plan, Platform,
};
use crate::host::{answers, ProgressView, RequestView, StepView};
use crate::model::{
    failed, most_requests, replies_within, run, run_from, succeeded, Desktop, WindowState,
};
use crate::window::{
    allow_close_plan, close_window_plan, maximize_window_plan, prevent_close_plan,
    restore_window_plan, show_at_startup_plan, toggle_fullscreen_plan, toggle_maximize_plan,
};
use vstd::prelude::*;

verus! {

/// On a path at which nothing exists, each of the three file commands fails
/// with the not-found error whose message ends in the path, and changes
/// nothing.
pub proof fn missing_path_is_reported(
    desktop: Desktop,
    path: Seq<char>,
    readonly: bool,
    platform: Platform,
)
    requires
        !desktop.files.contains_key(path),
    ensures
        run(|seen: ProgressView| set_file_readonly_plan(path, readonly, seen), desktop) == failed::<()>(
            desktop,
            not_found(missing_file_prefix(), path),
        ),
        run(|seen: ProgressView| is_file_readonly_plan(path, seen), desktop) == failed::<bool>(
            desktop,
            not_found(missing_file_prefix(), path),
        ),
        run(|seen: ProgressView| open_folder_plan(path, platform, seen), desktop) == failed::<()>(
            desktop,
            not_found(missing_folder_prefix(), path),
        ),
        contains_text(not_found(missing_file_prefix(), path).message, path),
        contains_text(not_found(missing_folder_prefix(), path).message, path),
{
    reveal_with_fuel(run_from, 6);
    lemma_message_holds_path(missing_file_prefix(), path);
    lemma_message_holds_path(missing_folder_prefix(), path);
}

/// Setting the read-only flag of an existing file succeeds, and reading the
/// flag afterwards gives the value that was set.
pub proof fn readonly_round_trip(desktop: Desktop, file: Seq<char>, readonly: bool)
    requires
        desktop.files.contains_key(file),
    ensures
        ({
            let set = run(|seen: ProgressView| set_file_readonly_plan(file, readonly, seen), desktop);
            let get = run(|seen: ProgressView| is_file_readonly_plan(file, seen), set.desktop);
            &&& set == succeeded(Desktop { files: desktop.files.insert(file, readonly), ..desktop }, ())
            &&& get == succeeded(set.desktop, readonly)
        }),
{
    reveal_with_fuel(run_from, 6);
}

/// Setting the read-only flag of an existing file twice to the same value
/// succeeds both times, and the second time changes nothing: the flag stays at
/// that value.
pub proof fn set_readonly_is_idempotent(desktop: Desktop, file: Seq<char>, readonly: bool)
    requires
        desktop.files.contains_key(file),
    ensures
        ({
            let once = run(|seen: ProgressView| set_file_readonly_plan(file, readonly, seen), desktop);
            let twice = run(
                |seen: ProgressView| set_file_readonly_plan(file, readonly, seen),
                once.desktop,
            );
            &&& once == succeeded(Desktop { files: desktop.files.insert(file, readonly), ..desktop }, ())
            &&& twice == once
            &&& once.desktop.files[file] == readonly
        }),
{
    reveal_with_fuel(run_from, 6);
    let once = run(|seen: ProgressView| set_file_readonly_plan(file, readonly, seen), desktop);
    assert(once.desktop.files.insert(file, readonly) =~= once.desktop.files);
}

/// Toggling the maximized state twice succeeds both times and leaves the host
/// as it was.
pub proof fn toggle_maximize_twice_restores(desktop: Desktop)
    ensures
        ({
            let once = run(|seen: ProgressView| toggle_maximize_plan(seen), desktop);
            let twice = run(|seen: ProgressView| toggle_maximize_plan(seen), once.desktop);
            &&& once.reply == twice.reply
            &&& twice == succeeded(desktop, ())
            &&& desktop.window matches Some(window) ==> once.desktop.window == Some(
                WindowState { maximized: !window.maximized, ..window },
            )
        }),
{
    reveal_with_fuel(run_from, 6);
}

/// Toggling fullscreen mode twice succeeds both times and leaves the host as
/// it was.
pub proof fn toggle_fullscreen_twice_restores(desktop: Desktop)
    ensures
        ({
            let once = run(|seen: ProgressView| toggle_fullscreen_plan(seen), desktop);
            let twice = run(|seen: ProgressView| toggle_fullscreen_plan(seen), once.desktop);
            &&& once.reply == twice.reply
            &&& twice == succeeded(desktop, ())
            &&& desktop.window matches Some(window) ==> once.desktop.window == Some(
                WindowState { fullscreen: !window.fullscreen, ..window },
            )
        }),
{
    reveal_with_fuel(run_from, 6);
}

/// Without `force`, closing asks the host for nothing, whatever has been
/// answered, so the application keeps running; with `force`, the first thing
/// it asks for is the exit, and the run leaves the application ended. Either
/// way the command succeeds.
pub proof fn close_window_ends_only_by_force(desktop: Desktop, seen: ProgressView)
    ensures
        close_window_plan(false, seen) == StepView::<()>::Finish(Ok(())),
        run(|seen: ProgressView| close_window_plan(false, seen), desktop) == succeeded(
            desktop,
            (),
        ),
        run(|seen: ProgressView| close_window_plan(true, seen), desktop) == succeeded(
            Desktop { running: false, ..desktop },
            (),
        ),
{
    reveal_with_fuel(run_from, 6);
}

/// Where there is no main window, each window command succeeds and changes
/// nothing.
pub proof fn absent_window_is_no_error(desktop: Desktop)
    requires
        desktop.window is None,
    ensures
        run(|seen: ProgressView| allow_close_plan(seen), desktop) == succeeded(
            desktop,
            (),
        ),
        run(|seen: ProgressView| prevent_close_plan(seen), desktop) == succeeded(
            desktop,
            (),
        ),
        run(|seen: ProgressView| maximize_window_plan(seen), desktop) == succeeded(
            desktop,
            (),
        ),
        run(|seen: ProgressView| restore_window_plan(seen), desktop) == succeeded(
            desktop,
            (),
        ),
        run(|seen: ProgressView| toggle_maximize_plan(seen), desktop) == succeeded(
            desktop,
            (),
        ),
        run(|seen: ProgressView| toggle_fullscreen_plan(seen), desktop) == succeeded(
            desktop,
            (),
        ),
        run(|seen: ProgressView| show_at_startup_plan(seen), desktop) == succeeded(
            desktop,
            (),
        ),
{
    reveal_with_fuel(run_from, 6);
}

/// On a path at which something exists, opening the folder starts the
/// platform's opener with the path as its one argument and succeeds.
pub proof fn open_folder_starts_the_opener(
    desktop: Desktop,
    path: Seq<char>,
    platform: Platform,
    program: Seq<char>,
)
    requires
        desktop.files.contains_key(path),
        opener_of(platform) == Some(program),
    ensures
        run(|seen: ProgressView| open_folder_plan(path, platform, seen), desktop) == succeeded(
            Desktop { launched: desktop.launched.push((program, path)), ..desktop },
            (),
        ),
{
    reveal_with_fuel(run_from, 6);
}

/// On a platform without a known opener, opening a folder that exists fails
/// with the no-opener error and starts nothing; a path at which nothing exists
/// is still reported as not found.
pub proof fn open_folder_fails_without_an_opener(
    desktop: Desktop,
    path: Seq<char>,
    platform: Platform,
)
    requires
        opener_of(platform) is None,
    ensures
        run(|seen: ProgressView| open_folder_plan(path, platform, seen), desktop) == failed::<()>(
            desktop,
            if desktop.files.contains_key(path) {
                no_opener()
            } else {
                not_found(missing_folder_prefix(), path)
            },
        ),
{
    reveal_with_fuel(run_from, 6);
}

/// Where there is a main window, each command that changes it without reading
/// it first succeeds and leaves exactly its own flag at the value it stands
/// for.
pub proof fn present_window_is_changed(desktop: Desktop, window: WindowState)
    requires
        desktop.window == Some(window),
    ensures
        run(|seen: ProgressView| allow_close_plan(seen), desktop) == succeeded(
            Desktop { window: Some(WindowState { closable: true, ..window }), ..desktop },
            (),
        ),
        run(|seen: ProgressView| prevent_close_plan(seen), desktop) == succeeded(
            Desktop { window: Some(WindowState { closable: false, ..window }), ..desktop },
            (),
        ),
        run(|seen: ProgressView| maximize_window_plan(seen), desktop) == succeeded(
            Desktop { window: Some(WindowState { maximized: true, ..window }), ..desktop },
            (),
        ),
        run(|seen: ProgressView| restore_window_plan(seen), desktop) == succeeded(
            Desktop { window: Some(WindowState { maximized: false, ..window }), ..desktop },
            (),
        ),
{
    reveal_with_fuel(run_from, 6);
}

/// At startup a main window that is minimized is brought up: it ends not
/// minimized, visible and focused, with its other flags as they were.
pub proof fn startup_brings_a_minimized_window_up(desktop: Desktop, window: WindowState)
    requires
        desktop.window == Some(window),
        window.minimized,
    ensures
        run(|seen: ProgressView| show_at_startup_plan(seen), desktop) == succeeded(
            Desktop {
                window: Some(
                    WindowState { minimized: false, visible: true, focused: true, ..window },
                ),
                ..desktop
            },
            (),
        ),
{
    reveal_with_fuel(run_from, 6);
}

/// At startup a main window that is not minimized is left as it is, whether
/// or not it is visible or focused.
pub proof fn startup_leaves_other_windows_alone(desktop: Desktop, window: WindowState)
    requires
        desktop.window == Some(window),
        !window.minimized,
    ensures
        run(|seen: ProgressView| show_at_startup_plan(seen), desktop) == succeeded(desktop, ()),
{
    reveal_with_fuel(run_from, 6);
}

/// Bringing the window up at startup never replies with a failure, whatever
/// the host has answered.
pub proof fn startup_never_fails(seen: ProgressView)
    ensures
        show_at_startup_plan(seen) matches StepView::Finish(reply) ==> reply is Ok,
{
}

/// The modelled host answers every request with an answer of its kind.
pub proof fn model_answers_in_kind(desktop: Desktop, request: RequestView)
    ensures
        answers(request, desktop.answer(request)),
{
}

/// A command that replies within `limit` requests whatever it is answered
/// comes to a reply when it runs against the modelled host.
pub proof fn run_comes_to_a_reply<T>(
    plan: spec_fn(ProgressView) -> StepView<T>,
    desktop: Desktop,
    seen: ProgressView,
    limit: nat,
)
    requires
        replies_within(plan, seen, limit),
    ensures
        run_from(plan, desktop, seen, limit).reply is Some,
    decreases limit,
{
    match plan(seen) {
        StepView::Finish(_) => {},
        StepView::Ask(request) => {
            let answer = desktop.answer(request);
            model_answers_in_kind(desktop, request);
            run_comes_to_a_reply(
                plan,
                desktop.after(request),
                seen.record(answer),
                (limit - 1) as nat,
            );
        },
    }
}

/// Every command comes to its reply after at most five requests, whatever the
/// host answers, as long as each answer is of the kind of its request.
pub proof fn every_command_replies(
    path: Seq<char>,
    readonly: bool,
    platform: Platform,
    force: bool,
)
    ensures
        replies_within(
            |seen: ProgressView| set_file_readonly_plan(path, readonly, seen),
            ProgressView::start(),
            most_requests(),
        ),
        replies_within(
            |seen: ProgressView| is_file_readonly_plan(path, seen),
            ProgressView::start(),
            most_requests(),
        ),
        replies_within(
            |seen: ProgressView| open_folder_plan(path, platform, seen),
            ProgressView::start(),
            most_requests(),
        ),
        replies_within(
            |seen: ProgressView| close_window_plan(force, seen),
            ProgressView::start(),
            most_requests(),
        ),
        replies_within(
            |seen: ProgressView| allow_close_plan(seen),
            ProgressView::start(),
            most_requests(),
        ),
        replies_within(
            |seen: ProgressView| prevent_close_plan(seen),
            ProgressView::start(),
            most_requests(),
        ),
        replies_within(
            |seen: ProgressView| toggle_maximize_plan(seen),
            ProgressView::start(),
            most_requests(),
        ),
        replies_within(
            |seen: ProgressView| maximize_window_plan(seen),
            ProgressView::start(),
            most_requests(),
        ),
        replies_within(
            |seen: ProgressView| restore_window_plan(seen),
            ProgressView::start(),
            most_requests(),
        ),
        replies_within(
            |seen: ProgressView| toggle_fullscreen_plan(seen),
            ProgressView::start(),
            most_requests(),
        ),
        replies_within(
            |seen: ProgressView| show_at_startup_plan(seen),
            ProgressView::start(),
            most_requests(),
        ),
{
    reveal_with_fuel(replies_within, 7);
}

} // verus!
