use unzipper::{Action, Event, Launcher};

fn s(x: &str) -> String {
    x.to_string()
}

fn started(path: &str) -> (Launcher, Action) {
    Launcher::new().step(Event::Started { args: vec![s("unzipper"), s(path)] })
}

/// Feeds the events in turn to a fresh launcher and collects the actions.
fn drive(args: Vec<String>, events: Vec<Event>) -> (Launcher, Vec<Action>) {
    let (mut launcher, first) = Launcher::new().step(Event::Started { args });
    let mut actions = vec![first];
    for ev in events {
        let (next, action) = launcher.step(ev);
        launcher = next;
        actions.push(action);
    }
    (launcher, actions)
}

fn args_for(path: &str) -> Vec<String> {
    vec![s("unzipper"), s(path)]
}

#[test]
fn no_argument_exits_with_one() {
    let (l, a) = Launcher::new().step(Event::Started { args: vec![s("unzipper")] });
    assert_eq!(a, Action::Exit { code: 1 });
    assert_eq!(l, Launcher::Done { code: 1 });
    let (_, a) = Launcher::new().step(Event::Started { args: vec![] });
    assert_eq!(a, Action::Exit { code: 1 });
}

#[test]
fn first_action_checks_the_input() {
    let (l, a) = started("/a/b/c.zip");
    assert_eq!(a, Action::CheckExists { path: s("/a/b/c.zip") });
    assert_eq!(l, Launcher::Checking { input: s("/a/b/c.zip") });
}

#[test]
fn extra_arguments_are_ignored() {
    let (_, a) = Launcher::new().step(Event::Started { args: vec![s("u"), s("/x.zip"), s("more")] });
    assert_eq!(a, Action::CheckExists { path: s("/x.zip") });
}

#[test]
fn missing_input_exits_with_one_and_nothing_else() {
    let (l, actions) = drive(args_for("/no/such.zip"), vec![Event::Exists { present: false }]);
    assert_eq!(actions, vec![Action::CheckExists { path: s("/no/such.zip") }, Action::Exit { code: 1 }]);
    assert_eq!(l, Launcher::Done { code: 1 });
}

#[test]
fn unresolvable_input_exits_with_one() {
    let (_, actions) = drive(
        args_for("x.zip"),
        vec![Event::Exists { present: true }, Event::Resolved { path: None }],
    );
    assert_eq!(
        actions,
        vec![
            Action::CheckExists { path: s("x.zip") },
            Action::Canonicalize { path: s("x.zip") },
            Action::Exit { code: 1 },
        ]
    );
}

#[test]
fn existing_output_is_opened_without_extraction() {
    let (l, actions) = drive(
        args_for("c.zip"),
        vec![
            Event::Exists { present: true },
            Event::Resolved { path: Some(s("/a/b/c.zip")) },
            Event::Exists { present: true },
            Event::BrowserLaunched,
        ],
    );
    assert_eq!(
        actions,
        vec![
            Action::CheckExists { path: s("c.zip") },
            Action::Canonicalize { path: s("c.zip") },
            Action::CheckExists { path: s("/a/b/c") },
            Action::OpenBrowser { program: s("explorer.exe"), dir: s("/a/b/c") },
            Action::Exit { code: 0 },
        ]
    );
    assert_eq!(l, Launcher::Done { code: 0 });
}

#[test]
fn archive_is_extracted_into_its_stem_directory() {
    let (l, actions) = drive(
        args_for("/a/b/c.zip"),
        vec![
            Event::Exists { present: true },
            Event::Resolved { path: Some(s("/a/b/c.zip")) },
            Event::Exists { present: false },
        ],
    );
    assert_eq!(actions[2], Action::CheckExists { path: s("/a/b/c") });
    assert_eq!(
        actions[3],
        Action::RunExtractor {
            program: s("7z"),
            args: vec![s("x"), s("/a/b/c.zip"), s("-o/a/b/c"), s("-y")],
        }
    );
    assert_eq!(l, Launcher::Extracting { archive: s("/a/b/c.zip"), out_dir: s("/a/b/c") });
}

#[test]
fn successful_extraction_opens_the_browser() {
    let (l, actions) = drive(
        args_for("/a/b/c.zip"),
        vec![
            Event::Exists { present: true },
            Event::Resolved { path: Some(s("/a/b/c.zip")) },
            Event::Exists { present: false },
            Event::ExtractorExited { code: Some(0), stderr: s("") },
            Event::BrowserLaunched,
        ],
    );
    assert_eq!(actions[4], Action::OpenBrowser { program: s("explorer.exe"), dir: s("/a/b/c") });
    assert_eq!(actions[5], Action::Exit { code: 0 });
    assert_eq!(l, Launcher::Done { code: 0 });
}

#[test]
fn failed_extraction_shows_dialog_then_exits_with_tool_status() {
    let (l, actions) = drive(
        args_for("/a/b/c.zip"),
        vec![
            Event::Exists { present: true },
            Event::Resolved { path: Some(s("/a/b/c.zip")) },
            Event::Exists { present: false },
            Event::ExtractorExited { code: Some(2), stderr: s("ERROR: c.zip\nCannot open the file as archive") },
            Event::DialogClosed,
        ],
    );
    assert_eq!(
        actions[4],
        Action::ShowDialog {
            title: s("Unzipper"),
            message: s("Extraction failed:\nERROR: c.zip\nCannot open the file as archive"),
        }
    );
    assert_eq!(actions[5], Action::Exit { code: 2 });
    assert_eq!(actions.len(), 6);
    assert_eq!(l, Launcher::Done { code: 2 });
}

#[test]
fn dialog_waits_for_dismissal() {
    let l = Launcher::Reporting { code: 7 };
    let (l2, a) = l.clone().step(Event::DialogClosed);
    assert_eq!(a, Action::Exit { code: 7 });
    assert_eq!(l2, Launcher::Done { code: 7 });
}

#[test]
fn extraction_without_status_exits_with_one() {
    let l = Launcher::Extracting { archive: s("/a.zip"), out_dir: s("/a") };
    let (l, a) = l.step(Event::ExtractorExited { code: None, stderr: s("killed") });
    assert_eq!(a, Action::ShowDialog { title: s("Unzipper"), message: s("Extraction failed:\nkilled") });
    let (_, a) = l.step(Event::DialogClosed);
    assert_eq!(a, Action::Exit { code: 1 });
}

#[test]
fn missing_extractor_is_reported_and_exits_with_one() {
    let l = Launcher::Extracting { archive: s("/a.zip"), out_dir: s("/a") };
    let (l, a) = l.step(Event::ExtractorUnavailable { error: s("program not found") });
    assert_eq!(a, Action::ShowDialog { title: s("Unzipper"), message: s("Failed to run 7z: program not found") });
    let (l, a) = l.step(Event::DialogClosed);
    assert_eq!(a, Action::Exit { code: 1 });
    assert_eq!(l, Launcher::Done { code: 1 });
}

#[test]
fn second_run_does_not_extract_again() {
    let events = |out_present: bool| {
        let mut evs = vec![
            Event::Exists { present: true },
            Event::Resolved { path: Some(s("/a/b/c.zip")) },
            Event::Exists { present: out_present },
        ];
        if !out_present {
            evs.push(Event::ExtractorExited { code: Some(0), stderr: s("") });
        }
        evs.push(Event::BrowserLaunched);
        evs
    };
    let (_, first) = drive(args_for("/a/b/c.zip"), events(false));
    let (_, second) = drive(args_for("/a/b/c.zip"), events(true));
    assert!(first.iter().any(|a| matches!(a, Action::RunExtractor { .. })));
    assert!(!second.iter().any(|a| matches!(a, Action::RunExtractor { .. })));
    assert_eq!(first[2], second[2]);
    assert_eq!(second.last(), Some(&Action::Exit { code: 0 }));
}

#[test]
fn no_extension_run_probes_the_path_itself() {
    let (_, actions) = drive(
        args_for("/a/b/README"),
        vec![Event::Exists { present: true }, Event::Resolved { path: Some(s("/a/b/README")) }],
    );
    assert_eq!(actions[2], Action::CheckExists { path: s("/a/b/README") });
}

#[test]
fn unexpected_event_ends_the_run() {
    let (l, a) = started("/a/b/c.zip");
    let (l, a2) = l.step(Event::DialogClosed);
    assert!(matches!(a, Action::CheckExists { .. }));
    assert_eq!(a2, Action::Exit { code: 1 });
    let (l, a3) = l.step(Event::Exists { present: true });
    assert_eq!(a3, Action::Exit { code: 1 });
    assert_eq!(l, Launcher::Done { code: 1 });
}

#[test]
fn finished_run_stays_finished() {
    let (l, a) = Launcher::Done { code: 3 }.step(Event::BrowserLaunched);
    assert_eq!(a, Action::Exit { code: 3 });
    assert_eq!(l, Launcher::Done { code: 3 });
}

#[test]
fn drive_root_opens_the_working_directory() {
    let (l, actions) = drive(
        args_for("C:\\"),
        vec![
            Event::Exists { present: true },
            Event::Resolved { path: Some(s("\\\\?\\C:\\")) },
            Event::Exists { present: true },
            Event::BrowserLaunched,
        ],
    );
    assert_eq!(actions[2], Action::CheckExists { path: s(".\\") });
    assert_eq!(actions[3], Action::OpenBrowser { program: s("explorer.exe"), dir: s(".\\") });
    assert_eq!(actions[4], Action::Exit { code: 0 });
    assert_eq!(l, Launcher::Done { code: 0 });
}
