//! The run of the program as a state machine. Each call of [`Launcher::step`]
//! takes the answer to the previous action and returns the next action; the
//! caller performs it (a file-system query, a child process, a dialog, an
//! exit) and reports what happened.
use vstd::prelude::*;
use crate::path::{out_dir_of, output_dir};

verus! {

/// Where a run stands.
#[derive(Debug, Clone, PartialEq, Eq)]
pub enum Launcher {
    /// Nothing has happened yet.
    Start,
    /// Asked whether the input path exists.
    Checking { input: String },
    /// Asked for the canonical form of the input path.
    Resolving { input: String },
    /// Asked whether the output directory exists.
    Probing { archive: String, out_dir: String },
    /// The archiver runs.
    Extracting { archive: String, out_dir: String },
    /// A dialog reports a failure; the run ends with `code` once it closes.
    Reporting { code: i32 },
    /// The file browser is being opened.
    Opening,
    /// The run is over.
    Done { code: i32 },
}

/// What happened since the last action.
#[derive(Debug, Clone, PartialEq, Eq)]
pub enum Event {
    /// The program started with these arguments, its own name first.
    Started { args: Vec<String> },
    /// The answer to [`Action::CheckExists`].
    Exists { present: bool },
    /// The answer to [`Action::Canonicalize`]: `None` when it failed.
    Resolved { path: Option<String> },
    /// The archiver ran and ended with this status code (`None` when it had
    /// none) and this error output.
    ExtractorExited { code: Option<i32>, stderr: String },
    /// The archiver could not be started.
    ExtractorUnavailable { error: String },
    /// The user dismissed the dialog.
    DialogClosed,
    /// The file browser was launched, or failed to; either way the run goes on.
    BrowserLaunched,
}

/// What the caller is to do next.
#[derive(Debug, Clone, PartialEq, Eq)]
pub enum Action {
    /// Tell whether an entry exists at `path`.
    CheckExists { path: String },
    /// Resolve `path` to its absolute, symlink-free form.
    Canonicalize { path: String },
    /// Run `program` with `args` without a console window, and wait for it.
    RunExtractor { program: String, args: Vec<String> },
    /// Show a modal dialog and wait until it is dismissed.
    ShowDialog { title: String, message: String },
    /// Start `program` on `dir` and do not wait for it.
    OpenBrowser { program: String, dir: String },
    /// End the process with `code`.
    Exit { code: i32 },
}

/// A [`Launcher`] as contracts see it, with its strings as character
/// sequences.
pub enum LauncherModel {
    Start,
    Checking { input: Seq<char> },
    Resolving { input: Seq<char> },
    Probing { archive: Seq<char>, out_dir: Seq<char> },
    Extracting { archive: Seq<char>, out_dir: Seq<char> },
    Reporting { code: i32 },
    Opening,
    Done { code: i32 },
}

/// An [`Event`] as contracts see it.
pub enum EventModel {
    Started { args: Seq<Seq<char>> },
    Exists { present: bool },
    Resolved { path: Option<Seq<char>> },
    ExtractorExited { code: Option<i32>, stderr: Seq<char> },
    ExtractorUnavailable { error: Seq<char> },
    DialogClosed,
    BrowserLaunched,
}

/// An [`Action`] as contracts see it.
pub enum ActionModel {
    CheckExists { path: Seq<char> },
    Canonicalize { path: Seq<char> },
    RunExtractor { program: Seq<char>, args: Seq<Seq<char>> },
    ShowDialog { title: Seq<char>, message: Seq<char> },
    OpenBrowser { program: Seq<char>, dir: Seq<char> },
    Exit { code: i32 },
}

/// The character sequences of a list of strings.
pub open spec fn strings_view(v: Seq<String>) -> Seq<Seq<char>> {
    v.map_values(|s: String| s@)
}

impl View for Launcher {
    type V = LauncherModel;

    open spec fn view(&self) -> LauncherModel {
        match self {
            Launcher::Start => LauncherModel::Start,
            Launcher::Checking { input } => LauncherModel::Checking { input: input@ },
            Launcher::Resolving { input } => LauncherModel::Resolving { input: input@ },
            Launcher::Probing { archive, out_dir } => LauncherModel::Probing {
                archive: archive@,
                out_dir: out_dir@,
            },
            Launcher::Extracting { archive, out_dir } => LauncherModel::Extracting {
                archive: archive@,
                out_dir: out_dir@,
            },
            Launcher::Reporting { code } => LauncherModel::Reporting { code: *code },
            Launcher::Opening => LauncherModel::Opening,
            Launcher::Done { code } => LauncherModel::Done { code: *code },
        }
    }
}

impl View for Event {
    type V = EventModel;

    open spec fn view(&self) -> EventModel {
        match self {
            Event::Started { args } => EventModel::Started { args: strings_view(args@) },
            Event::Exists { present } => EventModel::Exists { present: *present },
            Event::Resolved { path } => EventModel::Resolved {
                path: match path {
                    Some(p) => Some(p@),
                    None => None,
                },
            },
            Event::ExtractorExited { code, stderr } => EventModel::ExtractorExited {
                code: *code,
                stderr: stderr@,
            },
            Event::ExtractorUnavailable { error } => EventModel::ExtractorUnavailable {
                error: error@,
            },
            Event::DialogClosed => EventModel::DialogClosed,
            Event::BrowserLaunched => EventModel::BrowserLaunched,
        }
    }
}

impl View for Action {
    type V = ActionModel;

    open spec fn view(&self) -> ActionModel {
        match self {
            Action::CheckExists { path } => ActionModel::CheckExists { path: path@ },
            Action::Canonicalize { path } => ActionModel::Canonicalize { path: path@ },
            Action::RunExtractor { program, args } => ActionModel::RunExtractor {
                program: program@,
                args: strings_view(args@),
            },
            Action::ShowDialog { title, message } => ActionModel::ShowDialog {
                title: title@,
                message: message@,
            },
            Action::OpenBrowser { program, dir } => ActionModel::OpenBrowser {
                program: program@,
                dir: dir@,
            },
            Action::Exit { code } => ActionModel::Exit { code: *code },
        }
    }
}

/// The archiver's command.
pub open spec fn archiver() -> Seq<char> {
    "7z"@
}

/// The file browser's command.
pub open spec fn browser() -> Seq<char> {
    "explorer.exe"@
}

/// The title of every dialog.
pub open spec fn dialog_title() -> Seq<char> {
    "Unzipper"@
}

/// The archiver's arguments: extract `archive` with its paths into
/// `out_dir`, answering yes to every prompt.
pub open spec fn extractor_args(archive: Seq<char>, out_dir: Seq<char>) -> Seq<Seq<char>> {
    seq!["x"@, archive, "-o"@ + out_dir, "-y"@]
}

/// The dialog text when the archiver reports a failure.
pub open spec fn extraction_failed_message(stderr: Seq<char>) -> Seq<char> {
    "Extraction failed:\n"@ + stderr
}

/// The dialog text when the archiver cannot be started.
pub open spec fn launch_failed_message(error: Seq<char>) -> Seq<char> {
    "Failed to run 7z: "@ + error
}

/// The exit status after a failed extraction: the archiver's own, or 1 when
/// it had none.
pub open spec fn failure_code(code: Option<i32>) -> i32 {
    match code {
        Some(c) => c,
        None => 1,
    }
}

/// The end of a run: its stage, and the exit it asks for.
pub open spec fn finished(code: i32) -> (LauncherModel, ActionModel) {
    (LauncherModel::Done { code }, ActionModel::Exit { code })
}

/// One step of a run: the next stage and the next action. An event that
/// does not answer the pending action ends the run with status 1; a run
/// that is over stays over.
pub open spec fn next(s: LauncherModel, e: EventModel) -> (LauncherModel, ActionModel) {
    match s {
        LauncherModel::Start => match e {
            EventModel::Started { args } => if args.len() < 2 {
                finished(1)
            } else {
                (
                    LauncherModel::Checking { input: args[1] },
                    ActionModel::CheckExists { path: args[1] },
                )
            },
            _ => finished(1),
        },
        LauncherModel::Checking { input } => match e {
            EventModel::Exists { present } => if present {
                (LauncherModel::Resolving { input }, ActionModel::Canonicalize { path: input })
            } else {
                finished(1)
            },
            _ => finished(1),
        },
        LauncherModel::Resolving { .. } => match e {
            EventModel::Resolved { path } => match path {
                Some(r) => (
                    LauncherModel::Probing { archive: r, out_dir: out_dir_of(r) },
                    ActionModel::CheckExists { path: out_dir_of(r) },
                ),
                None => finished(1),
            },
            _ => finished(1),
        },
        LauncherModel::Probing { archive, out_dir } => match e {
            EventModel::Exists { present } => if present {
                (LauncherModel::Opening, ActionModel::OpenBrowser { program: browser(), dir: out_dir })
            } else {
                (
                    LauncherModel::Extracting { archive, out_dir },
                    ActionModel::RunExtractor {
                        program: archiver(),
                        args: extractor_args(archive, out_dir),
                    },
                )
            },
            _ => finished(1),
        },
        LauncherModel::Extracting { out_dir, .. } => match e {
            EventModel::ExtractorExited { code, stderr } => if code == Some(0i32) {
                (LauncherModel::Opening, ActionModel::OpenBrowser { program: browser(), dir: out_dir })
            } else {
                (
                    LauncherModel::Reporting { code: failure_code(code) },
                    ActionModel::ShowDialog {
                        title: dialog_title(),
                        message: extraction_failed_message(stderr),
                    },
                )
            },
            EventModel::ExtractorUnavailable { error } => (
                LauncherModel::Reporting { code: 1 },
                ActionModel::ShowDialog {
                    title: dialog_title(),
                    message: launch_failed_message(error),
                },
            ),
            _ => finished(1),
        },
        LauncherModel::Reporting { code } => match e {
            EventModel::DialogClosed => finished(code),
            _ => finished(1),
        },
        LauncherModel::Opening => match e {
            EventModel::BrowserLaunched => finished(0),
            _ => finished(1),
        },
        LauncherModel::Done { code } => finished(code),
    }
}

/// The archiver's arguments for extracting `archive` into `out_dir`.
pub fn extract_command_args(archive: &str, out_dir: &str) -> (r: Vec<String>)
    ensures
        strings_view(r@) == extractor_args(archive@, out_dir@),
{
    let mut args: Vec<String> = Vec::new();
    args.push(String::from_str("x"));
    args.push(String::from_str(archive));
    args.push(String::from_str("-o").concat(out_dir));
    args.push(String::from_str("-y"));
    assert(strings_view(args@) =~= extractor_args(archive@, out_dir@));
    args
}

fn finish(code: i32) -> (r: (Launcher, Action))
    ensures
        (r.0@, r.1@) == finished(code),
{
    (Launcher::Done { code }, Action::Exit { code })
}

fn open_browser(dir: String) -> (r: (Launcher, Action))
    ensures
        r.0@ == LauncherModel::Opening,
        r.1@ == (ActionModel::OpenBrowser { program: browser(), dir: dir@ }),
{
    (Launcher::Opening, Action::OpenBrowser { program: String::from_str("explorer.exe"), dir })
}

impl Launcher {
    /// A run that has not begun.
    pub fn new() -> (r: Launcher)
        ensures
            r@ == LauncherModel::Start,
    {
        Launcher::Start
    }

    /// Takes what happened and returns the next stage and what to do next.
    pub fn step(self, ev: Event) -> (r: (Launcher, Action))
        ensures
            (r.0@, r.1@) == next(self@, ev@),
    {
        match self {
            Launcher::Start => match ev {
                Event::Started { args } => {
                    if args.len() < 2 {
                        finish(1)
                    } else {
                        let input = args[1].clone();
                        (Launcher::Checking { input: input.clone() }, Action::CheckExists { path: input })
                    }
                },
                _ => finish(1),
            },
            Launcher::Checking { input } => match ev {
                Event::Exists { present } => {
                    if present {
                        (Launcher::Resolving { input: input.clone() }, Action::Canonicalize { path: input })
                    } else {
                        finish(1)
                    }
                },
                _ => finish(1),
            },
            Launcher::Resolving { .. } => match ev {
                Event::Resolved { path } => match path {
                    Some(r) => {
                        let out_dir = output_dir(r.as_str());
                        (
                            Launcher::Probing { archive: r, out_dir: out_dir.clone() },
                            Action::CheckExists { path: out_dir },
                        )
                    },
                    None => finish(1),
                },
                _ => finish(1),
            },
            Launcher::Probing { archive, out_dir } => match ev {
                Event::Exists { present } => {
                    if present {
                        open_browser(out_dir)
                    } else {
                        let args = extract_command_args(archive.as_str(), out_dir.as_str());
                        (
                            Launcher::Extracting { archive, out_dir },
                            Action::RunExtractor { program: String::from_str("7z"), args },
                        )
                    }
                },
                _ => finish(1),
            },
            Launcher::Extracting { out_dir, .. } => match ev {
                Event::ExtractorExited { code, stderr } => {
                    let succeeded = match code {
                        Some(c) => c == 0,
                        None => false,
                    };
                    if succeeded {
                        open_browser(out_dir)
                    } else {
                        let status = match code {
                            Some(c) => c,
                            None => 1,
                        };
                        let message = String::from_str("Extraction failed:\n").concat(stderr.as_str());
                        (
                            Launcher::Reporting { code: status },
                            Action::ShowDialog { title: String::from_str("Unzipper"), message },
                        )
                    }
                },
                Event::ExtractorUnavailable { error } => {
                    let message = String::from_str("Failed to run 7z: ").concat(error.as_str());
                    (
                        Launcher::Reporting { code: 1 },
                        Action::ShowDialog { title: String::from_str("Unzipper"), message },
                    )
                },
                _ => finish(1),
            },
            Launcher::Reporting { code } => match ev {
                Event::DialogClosed => finish(code),
                _ => finish(1),
            },
            Launcher::Opening => match ev {
                Event::BrowserLaunched => finish(0),
                _ => finish(1),
            },
            Launcher::Done { code } => finish(code),
        }
    }
}

} // verus!
