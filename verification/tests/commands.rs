use shell_commands::error::{CommandError, ErrorKind};
use shell_commands::files::{is_file_readonly, open_folder, opener_program, set_file_readonly, Platform};
use shell_commands::host::{Answer, Progress, Request, Step};
use shell_commands::window::{
    allow_close, close_window, maximize_window, prevent_close, restore_window, show_at_startup,
    toggle_fullscreen, toggle_maximize,
};

/// The flags of the one window of the host below.
#[derive(Debug, PartialEq, Eq)]
struct Window {
    closable: bool,
    maximized: bool,
    fullscreen: bool,
    minimized: bool,
    visible: bool,
    focused: bool,
}

/// A host kept in memory: it does what it is asked and records every request.
#[derive(Debug, PartialEq, Eq)]
struct Host {
    files: Vec<(String, bool)>,
    window: Option<Window>,
    running: bool,
    launched: Vec<(String, String)>,
    asked: Vec<Request>,
}

fn plain_window() -> Window {
    Window {
        closable: true,
        maximized: false,
        fullscreen: false,
        minimized: true,
        visible: false,
        focused: false,
    }
}

fn host_with(files: &[(&str, bool)], window: Option<Window>) -> Host {
    Host {
        files: files.iter().map(|(path, flag)| (path.to_string(), *flag)).collect(),
        window,
        running: true,
        launched: Vec::new(),
        asked: Vec::new(),
    }
}

fn copy_of(request: &Request) -> Request {
    match request {
        Request::ProbePath { path } => Request::ProbePath { path: path.clone() },
        Request::GetReadonly { path } => Request::GetReadonly { path: path.clone() },
        Request::SetReadonly { path, readonly } => {
            Request::SetReadonly { path: path.clone(), readonly: *readonly }
        }
        Request::Launch { program, argument } => {
            Request::Launch { program: program.clone(), argument: argument.clone() }
        }
        Request::Exit { code } => Request::Exit { code: *code },
        Request::FindWindow { label } => Request::FindWindow { label: label.clone() },
        Request::SetClosable { closable } => Request::SetClosable { closable: *closable },
        Request::IsMaximized => Request::IsMaximized,
        Request::Maximize => Request::Maximize,
        Request::Unmaximize => Request::Unmaximize,
        Request::IsFullscreen => Request::IsFullscreen,
        Request::SetFullscreen { fullscreen } => Request::SetFullscreen { fullscreen: *fullscreen },
        Request::IsMinimized => Request::IsMinimized,
        Request::Unminimize => Request::Unminimize,
        Request::Show => Request::Show,
        Request::SetFocus => Request::SetFocus,
    }
}

impl Host {
    fn flag_of(&self, path: &str) -> Option<bool> {
        self.files.iter().find(|(name, _)| name == path).map(|(_, flag)| *flag)
    }

    fn on_window(&mut self, change: impl Fn(&mut Window)) -> Answer {
        match self.window.as_mut() {
            Some(window) => {
                change(window);
                Answer::Done(Ok(()))
            }
            None => Answer::Done(Err("no window".to_string())),
        }
    }

    fn perform(&mut self, request: Request) -> Answer {
        self.asked.push(copy_of(&request));
        match request {
            Request::ProbePath { path } => Answer::Found(self.flag_of(&path).is_some()),
            Request::GetReadonly { path } => {
                Answer::Flag(self.flag_of(&path).ok_or("no such file".to_string()))
            }
            Request::SetReadonly { path, readonly } => {
                match self.files.iter_mut().find(|(name, _)| *name == path) {
                    Some(entry) => {
                        entry.1 = readonly;
                        Answer::Done(Ok(()))
                    }
                    None => Answer::Done(Err("no such file".to_string())),
                }
            }
            Request::Launch { program, argument } => {
                self.launched.push((program, argument));
                Answer::Done(Ok(()))
            }
            Request::Exit { .. } => {
                self.running = false;
                Answer::Done(Ok(()))
            }
            Request::FindWindow { label } => Answer::Found(label == "main" && self.window.is_some()),
            Request::IsMaximized => {
                Answer::Flag(self.window.as_ref().map(|w| w.maximized).ok_or("no window".to_string()))
            }
            Request::IsFullscreen => {
                Answer::Flag(self.window.as_ref().map(|w| w.fullscreen).ok_or("no window".to_string()))
            }
            Request::IsMinimized => {
                Answer::Flag(self.window.as_ref().map(|w| w.minimized).ok_or("no window".to_string()))
            }
            Request::SetClosable { closable } => self.on_window(|w| w.closable = closable),
            Request::Maximize => self.on_window(|w| w.maximized = true),
            Request::Unmaximize => self.on_window(|w| w.maximized = false),
            Request::SetFullscreen { fullscreen } => self.on_window(|w| w.fullscreen = fullscreen),
            Request::Unminimize => self.on_window(|w| w.minimized = false),
            Request::Show => self.on_window(|w| w.visible = true),
            Request::SetFocus => self.on_window(|w| w.focused = true),
        }
    }
}

/// Runs one command to its reply against `host`.
fn drive<T>(host: &mut Host, command: impl Fn(&Progress) -> Step<T>) -> Result<T, CommandError> {
    host.asked.clear();
    let mut seen = Progress::new();
    for _ in 0..8 {
        match command(&seen) {
            Step::Finish(reply) => return reply,
            Step::Ask(request) => seen = seen.record(host.perform(request)),
        }
    }
    panic!("the command did not come to a reply");
}

fn found(present: bool) -> Progress {
    Progress::new().record(Answer::Found(present))
}

fn not_found(message: &str) -> CommandError {
    CommandError { kind: ErrorKind::NotFound, message: message.to_string() }
}

fn os_error(message: &str) -> CommandError {
    CommandError { kind: ErrorKind::Os, message: message.to_string() }
}

fn find_main() -> Request {
    Request::FindWindow { label: "main".to_string() }
}

#[test]
fn every_file_command_probes_the_path_first() {
    let start = Progress::new();
    let probe = |path: &str| Step::Ask(Request::ProbePath { path: path.to_string() });
    assert_eq!(set_file_readonly("a.txt", true, &start), probe("a.txt"));
    assert_eq!(is_file_readonly("dir/b.txt", &start), Step::Ask(Request::ProbePath { path: "dir/b.txt".to_string() }));
    assert_eq!(open_folder("/home", Platform::Linux, &start), probe("/home"));
}

#[test]
fn missing_path_fails_with_not_found_holding_the_path() {
    let path = "/no/such/place";
    let mut host = host_with(&[("elsewhere", false)], None);
    let before = host_with(&[("elsewhere", false)], None);

    for readonly in [true, false] {
        let reply = drive(&mut host, |seen| set_file_readonly(path, readonly, seen));
        assert_eq!(reply, Err(not_found("File does not exist: /no/such/place")));
        assert_eq!(host.asked, vec![Request::ProbePath { path: path.to_string() }]);
    }
    let reply = drive(&mut host, |seen| is_file_readonly(path, seen));
    assert_eq!(reply, Err(not_found("File does not exist: /no/such/place")));
    assert!(reply.unwrap_err().message.contains(path));

    for platform in [Platform::Windows, Platform::MacOs, Platform::Linux, Platform::Other] {
        let reply = drive(&mut host, |seen| open_folder(path, platform, seen));
        assert_eq!(reply, Err(not_found("Folder does not exist: /no/such/place")));
        assert!(reply.unwrap_err().message.contains(path));
        assert_eq!(host.asked, vec![Request::ProbePath { path: path.to_string() }]);
    }
    host.asked.clear();
    assert_eq!(host, before);
}

#[test]
fn missing_empty_path_gives_the_bare_prefix() {
    assert_eq!(
        is_file_readonly("", &found(false)),
        Step::Finish(Err(not_found("File does not exist: ")))
    );
    assert_eq!(
        open_folder("", Platform::MacOs, &found(false)),
        Step::Finish(Err(not_found("Folder does not exist: ")))
    );
}

#[test]
fn set_then_get_returns_what_was_set() {
    for initial in [true, false] {
        for readonly in [true, false] {
            let mut host = host_with(&[("a.txt", initial), ("b.txt", initial)], None);
            assert_eq!(drive(&mut host, |seen| set_file_readonly("a.txt", readonly, seen)), Ok(()));
            assert_eq!(
                host.asked,
                vec![
                    Request::ProbePath { path: "a.txt".to_string() },
                    Request::SetReadonly { path: "a.txt".to_string(), readonly },
                ]
            );
            assert_eq!(drive(&mut host, |seen| is_file_readonly("a.txt", seen)), Ok(readonly));
            assert_eq!(
                host.asked,
                vec![
                    Request::ProbePath { path: "a.txt".to_string() },
                    Request::GetReadonly { path: "a.txt".to_string() },
                ]
            );
            assert_eq!(drive(&mut host, |seen| is_file_readonly("b.txt", seen)), Ok(initial));
        }
    }
}

#[test]
fn setting_twice_is_the_same_as_setting_once() {
    for readonly in [true, false] {
        let mut host = host_with(&[("a.txt", !readonly)], None);
        assert_eq!(drive(&mut host, |seen| set_file_readonly("a.txt", readonly, seen)), Ok(()));
        assert_eq!(host.files, vec![("a.txt".to_string(), readonly)]);
        assert_eq!(drive(&mut host, |seen| set_file_readonly("a.txt", readonly, seen)), Ok(()));
        assert_eq!(host.files, vec![("a.txt".to_string(), readonly)]);
    }
}

#[test]
fn readonly_scenario_on_one_file() {
    let mut host = host_with(&[("a.txt", false)], None);
    assert_eq!(drive(&mut host, |seen| set_file_readonly("a.txt", true, seen)), Ok(()));
    assert_eq!(drive(&mut host, |seen| is_file_readonly("a.txt", seen)), Ok(true));
    assert_eq!(drive(&mut host, |seen| set_file_readonly("a.txt", false, seen)), Ok(()));
    assert_eq!(drive(&mut host, |seen| is_file_readonly("a.txt", seen)), Ok(false));
}

#[test]
fn nonexistent_file_scenario() {
    let mut host = host_with(&[], None);
    let reply = drive(&mut host, |seen| is_file_readonly("/nonexistent/x.txt", seen));
    let error = reply.unwrap_err();
    assert_eq!(error.kind, ErrorKind::NotFound);
    assert!(error.message.contains("/nonexistent/x.txt"));
    assert_eq!(error.into_message(), "File does not exist: /nonexistent/x.txt");
}

#[test]
fn failure_to_read_the_flag_is_passed_on() {
    let seen = found(true).record(Answer::Flag(Err("Permission denied (os error 13)".to_string())));
    assert_eq!(
        is_file_readonly("a.txt", &seen),
        Step::Finish(Err(os_error("Permission denied (os error 13)")))
    );
}

#[test]
fn failure_to_write_the_flag_is_passed_on() {
    let seen = found(true).record(Answer::Done(Err("Read-only file system (os error 30)".to_string())));
    assert_eq!(
        set_file_readonly("a.txt", true, &seen),
        Step::Finish(Err(os_error("Read-only file system (os error 30)")))
    );
    let seen = found(true).record(Answer::Done(Ok(())));
    assert_eq!(set_file_readonly("a.txt", true, &seen), Step::Finish(Ok(())));
}

#[test]
fn each_platform_has_its_opener() {
    assert_eq!(opener_program(Platform::Windows), Some("explorer"));
    assert_eq!(opener_program(Platform::MacOs), Some("open"));
    assert_eq!(opener_program(Platform::Linux), Some("xdg-open"));
    assert_eq!(opener_program(Platform::Other), None);
}

#[test]
fn open_folder_starts_the_opener_on_the_path() {
    for (platform, program) in
        [(Platform::Windows, "explorer"), (Platform::MacOs, "open"), (Platform::Linux, "xdg-open")]
    {
        let mut host = host_with(&[("/home/me", false)], None);
        assert_eq!(drive(&mut host, |seen| open_folder("/home/me", platform, seen)), Ok(()));
        assert_eq!(host.launched, vec![(program.to_string(), "/home/me".to_string())]);
        assert_eq!(
            host.asked,
            vec![
                Request::ProbePath { path: "/home/me".to_string() },
                Request::Launch { program: program.to_string(), argument: "/home/me".to_string() },
            ]
        );
    }
}

#[test]
fn open_folder_accepts_a_file_path() {
    let mut host = host_with(&[("/home/me/notes.txt", true)], None);
    assert_eq!(drive(&mut host, |seen| open_folder("/home/me/notes.txt", Platform::Linux, seen)), Ok(()));
    assert_eq!(host.launched, vec![("xdg-open".to_string(), "/home/me/notes.txt".to_string())]);
}

#[test]
fn open_folder_without_an_opener_fails_and_starts_nothing() {
    let mut host = host_with(&[("/home/me", false)], None);
    assert_eq!(
        drive(&mut host, |seen| open_folder("/home/me", Platform::Other, seen)),
        Err(os_error("No opener available on this platform"))
    );
    assert!(host.launched.is_empty());
    assert_eq!(host.asked, vec![Request::ProbePath { path: "/home/me".to_string() }]);
}

#[test]
fn open_folder_without_an_opener_fails_whatever_else_was_answered() {
    let seen = found(true).record(Answer::Done(Ok(())));
    assert_eq!(
        open_folder("/home/me", Platform::Other, &seen),
        Step::Finish(Err(os_error("No opener available on this platform")))
    );
}

#[test]
fn failure_to_start_the_opener_is_passed_on() {
    let seen = found(true).record(Answer::Done(Err("No such file or directory (os error 2)".to_string())));
    assert_eq!(
        open_folder("/home/me", Platform::Linux, &seen),
        Step::Finish(Err(os_error("No such file or directory (os error 2)")))
    );
}

#[test]
fn close_without_force_asks_for_nothing() {
    let mut host = host_with(&[], Some(plain_window()));
    assert_eq!(drive(&mut host, |seen| close_window(false, seen)), Ok(()));
    assert!(host.asked.is_empty());
    assert!(host.running);
    let seen = found(true).record(Answer::Flag(Ok(true))).record(Answer::Done(Ok(())));
    assert_eq!(close_window(false, &seen), Step::Finish(Ok(())));
}

#[test]
fn close_with_force_ends_the_application() {
    let mut host = host_with(&[], None);
    assert_eq!(drive(&mut host, |seen| close_window(true, seen)), Ok(()));
    assert_eq!(host.asked, vec![Request::Exit { code: 0 }]);
    assert!(!host.running);
}

#[test]
fn close_with_force_succeeds_whatever_the_host_answers() {
    assert_eq!(close_window(true, &Progress::new()), Step::Ask(Request::Exit { code: 0 }));
    let seen = Progress::new().record(Answer::Done(Err("failed to exit".to_string())));
    assert_eq!(close_window(true, &seen), Step::Finish(Ok(())));
}

#[test]
fn toggle_maximize_twice_gives_the_first_state_back() {
    for maximized in [true, false] {
        let mut host = host_with(&[], Some(Window { maximized, ..plain_window() }));
        assert_eq!(drive(&mut host, |seen| toggle_maximize(seen)), Ok(()));
        assert_eq!(host.window, Some(Window { maximized: !maximized, ..plain_window() }));
        assert_eq!(drive(&mut host, |seen| toggle_maximize(seen)), Ok(()));
        assert_eq!(host.window, Some(Window { maximized, ..plain_window() }));
    }
}

#[test]
fn toggle_maximize_asks_for_the_opposite_state() {
    assert_eq!(toggle_maximize(&Progress::new()), Step::Ask(find_main()));
    assert_eq!(toggle_maximize(&found(true)), Step::Ask(Request::IsMaximized));
    assert_eq!(
        toggle_maximize(&found(true).record(Answer::Flag(Ok(true)))),
        Step::Ask(Request::Unmaximize)
    );
    assert_eq!(
        toggle_maximize(&found(true).record(Answer::Flag(Ok(false)))),
        Step::Ask(Request::Maximize)
    );
    assert_eq!(
        toggle_maximize(&found(true).record(Answer::Flag(Ok(false))).record(Answer::Done(Ok(())))),
        Step::Finish(Ok(()))
    );
}

#[test]
fn toggle_fullscreen_twice_gives_the_first_state_back() {
    for fullscreen in [true, false] {
        let mut host = host_with(&[], Some(Window { fullscreen, ..plain_window() }));
        assert_eq!(drive(&mut host, |seen| toggle_fullscreen(seen)), Ok(()));
        assert_eq!(host.window, Some(Window { fullscreen: !fullscreen, ..plain_window() }));
        assert_eq!(
            host.asked,
            vec![find_main(), Request::IsFullscreen, Request::SetFullscreen { fullscreen: !fullscreen }]
        );
        assert_eq!(drive(&mut host, |seen| toggle_fullscreen(seen)), Ok(()));
        assert_eq!(host.window, Some(Window { fullscreen, ..plain_window() }));
    }
}

#[test]
fn toggles_pass_on_a_failed_query_and_change_nothing() {
    let seen = found(true).record(Answer::Flag(Err("window is gone".to_string())));
    assert_eq!(toggle_maximize(&seen), Step::Finish(Err(os_error("window is gone"))));
    assert_eq!(toggle_fullscreen(&seen), Step::Finish(Err(os_error("window is gone"))));
}

#[test]
fn toggles_pass_on_a_failed_change() {
    let seen = found(true)
        .record(Answer::Flag(Ok(true)))
        .record(Answer::Done(Err("not permitted".to_string())));
    assert_eq!(toggle_maximize(&seen), Step::Finish(Err(os_error("not permitted"))));
    assert_eq!(toggle_fullscreen(&seen), Step::Finish(Err(os_error("not permitted"))));
}

#[test]
fn window_commands_succeed_without_a_window() {
    let mut host = host_with(&[("a.txt", true)], None);
    let commands: [fn(&Progress) -> Step<()>; 7] = [
        allow_close,
        prevent_close,
        maximize_window,
        restore_window,
        toggle_maximize,
        toggle_fullscreen,
        show_at_startup,
    ];
    for command in commands {
        assert_eq!(drive(&mut host, command), Ok(()));
        assert_eq!(host.asked, vec![find_main()]);
        host.asked.clear();
        assert_eq!(host, host_with(&[("a.txt", true)], None));
    }
}

#[test]
fn window_commands_set_their_flag() {
    let mut host = host_with(&[], Some(plain_window()));
    assert_eq!(drive(&mut host, |seen| prevent_close(seen)), Ok(()));
    assert_eq!(host.asked, vec![find_main(), Request::SetClosable { closable: false }]);
    assert_eq!(host.window, Some(Window { closable: false, ..plain_window() }));
    assert_eq!(drive(&mut host, |seen| prevent_close(seen)), Ok(()));
    assert_eq!(host.window, Some(Window { closable: false, ..plain_window() }));

    assert_eq!(drive(&mut host, |seen| allow_close(seen)), Ok(()));
    assert_eq!(host.asked, vec![find_main(), Request::SetClosable { closable: true }]);
    assert_eq!(host.window, Some(plain_window()));

    assert_eq!(drive(&mut host, |seen| maximize_window(seen)), Ok(()));
    assert_eq!(host.asked, vec![find_main(), Request::Maximize]);
    assert_eq!(host.window, Some(Window { maximized: true, ..plain_window() }));
    assert_eq!(drive(&mut host, |seen| maximize_window(seen)), Ok(()));
    assert_eq!(host.window, Some(Window { maximized: true, ..plain_window() }));

    assert_eq!(drive(&mut host, |seen| restore_window(seen)), Ok(()));
    assert_eq!(host.asked, vec![find_main(), Request::Unmaximize]);
    assert_eq!(host.window, Some(plain_window()));
    assert_eq!(drive(&mut host, |seen| restore_window(seen)), Ok(()));
    assert_eq!(host.window, Some(plain_window()));
}

#[test]
fn window_commands_pass_on_a_failed_change() {
    let seen = found(true).record(Answer::Done(Err("not permitted".to_string())));
    let commands: [fn(&Progress) -> Step<()>; 4] =
        [allow_close, prevent_close, maximize_window, restore_window];
    for command in commands {
        assert_eq!(command(&seen), Step::Finish(Err(os_error("not permitted"))));
    }
}

#[test]
fn startup_brings_a_minimized_window_up() {
    let mut host = host_with(&[], Some(plain_window()));
    assert_eq!(drive(&mut host, |seen| show_at_startup(seen)), Ok(()));
    assert_eq!(
        host.asked,
        vec![
            find_main(),
            Request::IsMinimized,
            Request::Unminimize,
            Request::Show,
            Request::SetFocus,
        ]
    );
    assert_eq!(
        host.window,
        Some(Window { minimized: false, visible: true, focused: true, ..plain_window() })
    );
}

#[test]
fn startup_leaves_a_window_that_is_not_minimized() {
    let hidden = || Window { minimized: false, visible: false, focused: false, ..plain_window() };
    let mut host = host_with(&[], Some(hidden()));
    assert_eq!(drive(&mut host, |seen| show_at_startup(seen)), Ok(()));
    assert_eq!(host.asked, vec![find_main(), Request::IsMinimized]);
    assert_eq!(host.window, Some(hidden()));
}

#[test]
fn startup_passes_over_a_state_that_cannot_be_read() {
    assert_eq!(show_at_startup(&Progress::new()), Step::Ask(find_main()));
    assert_eq!(show_at_startup(&found(true)), Step::Ask(Request::IsMinimized));
    let seen = found(true).record(Answer::Flag(Err("window is gone".to_string())));
    assert_eq!(show_at_startup(&seen), Step::Finish(Ok(())));
    let seen = found(true).record(Answer::Flag(Ok(false)));
    assert_eq!(show_at_startup(&seen), Step::Finish(Ok(())));
}

#[test]
fn startup_goes_on_after_failures() {
    let refused = || Answer::Done(Err("refused".to_string()));
    let seen = found(true).record(Answer::Flag(Ok(true)));
    assert_eq!(show_at_startup(&seen), Step::Ask(Request::Unminimize));
    let seen = seen.record(refused());
    assert_eq!(show_at_startup(&seen), Step::Ask(Request::Show));
    let seen = seen.record(refused());
    assert_eq!(show_at_startup(&seen), Step::Ask(Request::SetFocus));
    let seen = seen.record(refused());
    assert_eq!(show_at_startup(&seen), Step::Finish(Ok(())));
}

#[test]
fn progress_keeps_each_answer_in_its_place() {
    let seen = Progress::new();
    assert_eq!(seen, Progress { found: None, flag: None, done: vec![] });
    assert_eq!(seen.first_done(), None);
    let seen = seen
        .record(Answer::Found(true))
        .record(Answer::Flag(Ok(false)))
        .record(Answer::Done(Ok(())))
        .record(Answer::Done(Err("second".to_string())));
    assert_eq!(
        seen,
        Progress {
            found: Some(true),
            flag: Some(Ok(false)),
            done: vec![Ok(()), Err("second".to_string())],
        }
    );
    assert_eq!(seen.first_done(), Some(&Ok(())));
}

#[test]
fn error_constructors_and_message() {
    assert_eq!(CommandError::missing_file("x"), not_found("File does not exist: x"));
    assert_eq!(CommandError::missing_folder("y"), not_found("Folder does not exist: y"));
    assert_eq!(CommandError::no_opener(), os_error("No opener available on this platform"));
    assert_eq!(CommandError::os("boom".to_string()), os_error("boom"));
    assert_eq!(os_error("boom").into_message(), "boom");
}
