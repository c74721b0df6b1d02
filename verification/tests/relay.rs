use markdown_viewer::relay::{
    Action, Diagnostic, Event, LaunchArgument, Relay, FILE_ARGUMENT, OPEN_FILE_EVENT,
    READY_DELAY_MILLIS, SURFACE_LABEL,
};

fn payloads(start: Relay, events: &[Event]) -> Vec<String> {
    let mut sent = Vec::new();
    let mut state = start;
    for event in events {
        let (next, action) = state.step(*event);
        if let Action::Notify { payload } = action {
            sent.push(payload);
        }
        state = next;
    }
    sent
}

fn text(path: &str) -> LaunchArgument {
    LaunchArgument::Text(path.to_string())
}

#[test]
fn names_and_delay() {
    assert_eq!(FILE_ARGUMENT, "file");
    assert_eq!(SURFACE_LABEL, "main");
    assert_eq!(OPEN_FILE_EVENT, "cli-open-file");
    assert_eq!(READY_DELAY_MILLIS, 500);
}

#[test]
fn absent_argument_is_reported_and_finishes() {
    let (state, action) = Relay::launch(LaunchArgument::Absent, Some("/home/user"));
    assert_eq!(state, Relay::Finished);
    assert_eq!(action, Action::Report(Diagnostic::NoArgument));
    assert!(state.is_finished());
}

#[test]
fn absent_argument_sends_nothing() {
    let runs: [&[Event]; 4] = [
        &[],
        &[Event::Ready],
        &[Event::SurfaceFound, Event::Ready],
        &[Event::Ready, Event::SurfaceFound, Event::Ready, Event::Ready],
    ];
    for run in runs {
        let (state, _) = Relay::launch(LaunchArgument::Absent, Some("/home/user"));
        assert_eq!(payloads(state, run), Vec::<String>::new());
    }
}

#[test]
fn value_that_is_not_text_is_reported() {
    let (state, action) = Relay::launch(LaunchArgument::NotText, Some("/home/user"));
    assert_eq!(state, Relay::Finished);
    assert_eq!(action, Action::Report(Diagnostic::NotText));
    assert_eq!(
        payloads(state, &[Event::SurfaceFound, Event::Ready]),
        Vec::<String>::new()
    );
}

#[test]
fn unparsed_command_line_is_reported() {
    let (state, action) = Relay::launch(LaunchArgument::Unparsed, None);
    assert_eq!(state, Relay::Finished);
    assert_eq!(action, Action::Report(Diagnostic::Unparsed));
    assert_eq!(
        payloads(state, &[Event::SurfaceFound, Event::Ready]),
        Vec::<String>::new()
    );
}

#[test]
fn relative_path_is_resolved_at_launch() {
    let (state, action) = Relay::launch(text("notes.md"), Some("/home/user"));
    assert_eq!(
        state,
        Relay::Resolved {
            path: "/home/user/notes.md".to_string()
        }
    );
    assert_eq!(action, Action::FindSurface);
    assert!(!state.is_finished());
}

#[test]
fn absolute_path_is_kept_at_launch() {
    let (state, _) = Relay::launch(text("/etc/notes.md"), Some("/home/user"));
    assert_eq!(
        state,
        Relay::Resolved {
            path: "/etc/notes.md".to_string()
        }
    );
}

#[test]
fn unknown_working_dir_keeps_raw_path() {
    let (state, action) = Relay::launch(text("notes.md"), None);
    assert_eq!(
        state,
        Relay::Resolved {
            path: "notes.md".to_string()
        }
    );
    assert_eq!(action, Action::FindSurface);
}

#[test]
fn found_surface_starts_the_wait() {
    let (state, _) = Relay::launch(text("notes.md"), Some("/home/user"));
    let (state, action) = state.step(Event::SurfaceFound);
    assert_eq!(
        state,
        Relay::Waiting {
            path: "/home/user/notes.md".to_string()
        }
    );
    assert_eq!(action, Action::Wait { millis: 500 });
}

#[test]
fn missing_surface_is_reported() {
    let (state, _) = Relay::launch(text("notes.md"), Some("/home/user"));
    let (state, action) = state.step(Event::SurfaceMissing);
    assert_eq!(state, Relay::Finished);
    assert_eq!(action, Action::Report(Diagnostic::SurfaceMissing));
    assert!(state.is_finished());
    assert_eq!(
        payloads(state, &[Event::SurfaceFound, Event::Ready]),
        Vec::<String>::new()
    );
}

#[test]
fn ready_after_surface_sends_the_resolved_path() {
    let (state, _) = Relay::launch(text("notes.md"), Some("/home/user"));
    let (state, _) = state.step(Event::SurfaceFound);
    let (state, action) = state.step(Event::Ready);
    assert_eq!(state, Relay::Finished);
    assert_eq!(
        action,
        Action::Notify {
            payload: "/home/user/notes.md".to_string()
        }
    );
}

#[test]
fn ready_before_surface_is_ignored() {
    let (state, _) = Relay::launch(text("notes.md"), Some("/home/user"));
    let (state, action) = state.step(Event::Ready);
    assert_eq!(action, Action::Nothing);
    assert_eq!(
        state,
        Relay::Resolved {
            path: "/home/user/notes.md".to_string()
        }
    );
}

#[test]
fn surface_events_while_waiting_are_ignored() {
    let (state, _) = Relay::launch(text("/a.md"), None);
    let (state, _) = state.step(Event::SurfaceFound);
    let (state, action) = state.step(Event::SurfaceMissing);
    assert_eq!(action, Action::Nothing);
    let (state, action) = state.step(Event::SurfaceFound);
    assert_eq!(action, Action::Nothing);
    assert_eq!(
        state,
        Relay::Waiting {
            path: "/a.md".to_string()
        }
    );
}

#[test]
fn finished_relay_ignores_everything() {
    for event in [Event::SurfaceFound, Event::SurfaceMissing, Event::Ready] {
        let (state, action) = Relay::Finished.step(event);
        assert_eq!(state, Relay::Finished);
        assert_eq!(action, Action::Nothing);
    }
}

#[test]
fn exactly_one_notification_per_run() {
    let runs: [&[Event]; 4] = [
        &[Event::SurfaceFound, Event::Ready],
        &[Event::Ready, Event::Ready, Event::SurfaceFound, Event::Ready],
        &[Event::SurfaceFound, Event::SurfaceMissing, Event::Ready, Event::Ready],
        &[
            Event::SurfaceFound,
            Event::Ready,
            Event::SurfaceFound,
            Event::Ready,
            Event::SurfaceMissing,
        ],
    ];
    for run in runs {
        let (state, _) = Relay::launch(text("docs/notes.md"), Some("/home/user/"));
        assert_eq!(
            payloads(state, run),
            vec!["/home/user/docs/notes.md".to_string()]
        );
    }
}

#[test]
fn nothing_is_sent_without_ready() {
    let runs: [&[Event]; 3] = [
        &[],
        &[Event::SurfaceFound],
        &[Event::SurfaceFound, Event::SurfaceFound, Event::SurfaceMissing],
    ];
    for run in runs {
        let (state, _) = Relay::launch(text("notes.md"), Some("/home/user"));
        assert_eq!(payloads(state, run), Vec::<String>::new());
    }
}

#[test]
fn missing_surface_after_early_ready_is_reported() {
    let (state, _) = Relay::launch(text("/etc/notes.md"), None);
    let (state, action) = state.step(Event::Ready);
    assert_eq!(action, Action::Nothing);
    let (state, action) = state.step(Event::SurfaceMissing);
    assert_eq!(state, Relay::Finished);
    assert_eq!(action, Action::Report(Diagnostic::SurfaceMissing));
}

#[test]
fn platform_resolved_path_is_relayed_unchanged() {
    let (state, _) = Relay::launch(text("C:\\Users\\me\\notes.md"), None);
    let (state, _) = state.step(Event::SurfaceFound);
    let (_, action) = state.step(Event::Ready);
    assert_eq!(
        action,
        Action::Notify {
            payload: "C:\\Users\\me\\notes.md".to_string()
        }
    );
}

#[test]
fn nothing_is_sent_when_surface_is_missing() {
    let (state, _) = Relay::launch(text("notes.md"), Some("/home/user"));
    let run = [Event::Ready, Event::SurfaceMissing, Event::SurfaceFound, Event::Ready];
    assert_eq!(payloads(state, &run), Vec::<String>::new());
}
