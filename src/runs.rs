//! Whole runs: what a launcher does over a sequence of events.
use vstd::prelude::*;
use crate::path::out_dir_of;
use crate::launch::{
    ActionModel, EventModel, LauncherModel, archiver, browser, dialog_title,
    extraction_failed_message, extractor_args, next,
};

verus! {

/// The stage reached and the actions issued, in order, when the events `evs`
/// are fed to a launcher at stage `s`.
pub open spec fn run(s: LauncherModel, evs: Seq<EventModel>) -> (LauncherModel, Seq<ActionModel>)
    decreases evs.len(),
{
    if evs.len() == 0 {
        (s, seq![])
    } else {
        let (s1, acts) = run(s, evs.drop_last());
        let (s2, a) = next(s1, evs.last());
        (s2, acts.push(a))
    }
}

proof fn lemma_run_push(s: LauncherModel, evs: Seq<EventModel>, e: EventModel)
    ensures
        run(s, evs.push(e)) == ({
            let (s1, acts) = run(s, evs);
            (next(s1, e).0, acts.push(next(s1, e).1))
        }),
{
    assert(evs.push(e).drop_last() =~= evs);
}

/// The events of a run whose input exists and resolves to `resolved`, up to
/// the answer on whether its output directory exists.
pub open spec fn probed(args: Seq<Seq<char>>, resolved: Seq<char>, out_present: bool) -> Seq<EventModel> {
    seq![
        EventModel::Started { args },
        EventModel::Exists { present: true },
        EventModel::Resolved { path: Some(resolved) },
        EventModel::Exists { present: out_present },
    ]
}

/// The actions of such a run up to that answer.
pub open spec fn probe_actions(input: Seq<char>, resolved: Seq<char>) -> Seq<ActionModel> {
    seq![
        ActionModel::CheckExists { path: input },
        ActionModel::Canonicalize { path: input },
        ActionModel::CheckExists { path: out_dir_of(resolved) },
    ]
}

proof fn lemma_probed(args: Seq<Seq<char>>, resolved: Seq<char>, out_present: bool)
    requires
        args.len() >= 2,
    ensures
        run(LauncherModel::Start, probed(args, resolved, out_present).drop_last()) == (
            LauncherModel::Probing { archive: resolved, out_dir: out_dir_of(resolved) },
            probe_actions(args[1], resolved),
        ),
{
    let e = probed(args, resolved, out_present);
    let e0 = Seq::<EventModel>::empty();
    lemma_run_push(LauncherModel::Start, e0, e[0]);
    lemma_run_push(LauncherModel::Start, e0.push(e[0]), e[1]);
    lemma_run_push(LauncherModel::Start, e0.push(e[0]).push(e[1]), e[2]);
    assert(e0.push(e[0]).push(e[1]).push(e[2]) =~= e.drop_last());
    assert(run(LauncherModel::Start, e0).1.push(ActionModel::CheckExists { path: args[1] }).push(
        ActionModel::Canonicalize { path: args[1] },
    ).push(ActionModel::CheckExists { path: out_dir_of(resolved) }) =~= probe_actions(args[1], resolved));
}

/// A run on an input path that does not exist checks it, then exits with
/// status 1: it runs nothing, shows no dialog and changes nothing.
pub proof fn lemma_missing_input_exits(args: Seq<Seq<char>>)
    requires
        args.len() >= 2,
    ensures
        run(
            LauncherModel::Start,
            seq![EventModel::Started { args }, EventModel::Exists { present: false }],
        ) == (
            LauncherModel::Done { code: 1 },
            seq![ActionModel::CheckExists { path: args[1] }, ActionModel::Exit { code: 1 }],
        ),
{
    let e0 = Seq::<EventModel>::empty();
    let e1 = EventModel::Started { args };
    let e2 = EventModel::Exists { present: false };
    lemma_run_push(LauncherModel::Start, e0, e1);
    lemma_run_push(LauncherModel::Start, e0.push(e1), e2);
    assert(seq![e1, e2] =~= e0.push(e1).push(e2));
    assert(seq![ActionModel::CheckExists { path: args[1] }, ActionModel::Exit { code: 1 }]
        =~= run(LauncherModel::Start, e0).1.push(ActionModel::CheckExists { path: args[1] }).push(
        ActionModel::Exit { code: 1 },
    ));
}

/// When the output directory already exists, the run does not extract: it
/// opens the browser on that directory and exits with status 0.
pub proof fn lemma_present_output_skips_extraction(args: Seq<Seq<char>>, resolved: Seq<char>)
    requires
        args.len() >= 2,
    ensures
        run(LauncherModel::Start, probed(args, resolved, true).push(EventModel::BrowserLaunched))
            == (
            LauncherModel::Done { code: 0 },
            probe_actions(args[1], resolved).push(
                ActionModel::OpenBrowser { program: browser(), dir: out_dir_of(resolved) },
            ).push(ActionModel::Exit { code: 0 }),
        ),
{
    let e = probed(args, resolved, true);
    lemma_probed(args, resolved, true);
    lemma_run_push(LauncherModel::Start, e.drop_last(), e.last());
    assert(e.drop_last().push(e.last()) =~= e);
    lemma_run_push(LauncherModel::Start, e, EventModel::BrowserLaunched);
}

/// When the output directory does not exist, the run has the archiver
/// extract the resolved archive into it, the stem of the archive beside it.
pub proof fn lemma_absent_output_extracts(args: Seq<Seq<char>>, resolved: Seq<char>)
    requires
        args.len() >= 2,
    ensures
        run(LauncherModel::Start, probed(args, resolved, false)) == (
            LauncherModel::Extracting { archive: resolved, out_dir: out_dir_of(resolved) },
            probe_actions(args[1], resolved).push(
                ActionModel::RunExtractor {
                    program: archiver(),
                    args: extractor_args(resolved, out_dir_of(resolved)),
                },
            ),
        ),
{
    let e = probed(args, resolved, false);
    lemma_probed(args, resolved, false);
    lemma_run_push(LauncherModel::Start, e.drop_last(), e.last());
    assert(e.drop_last().push(e.last()) =~= e);
}

/// When the archiver fails with a non-zero status, the run shows a dialog
/// with its error output and then exits with that same status.
pub proof fn lemma_failed_extraction_reports_then_exits(
    args: Seq<Seq<char>>,
    resolved: Seq<char>,
    status: i32,
    stderr: Seq<char>,
)
    requires
        args.len() >= 2,
        status != 0,
    ensures
        run(
            LauncherModel::Start,
            probed(args, resolved, false).push(
                EventModel::ExtractorExited { code: Some(status), stderr },
            ).push(EventModel::DialogClosed),
        ) == (
            LauncherModel::Done { code: status },
            probe_actions(args[1], resolved).push(
                ActionModel::RunExtractor {
                    program: archiver(),
                    args: extractor_args(resolved, out_dir_of(resolved)),
                },
            ).push(
                ActionModel::ShowDialog {
                    title: dialog_title(),
                    message: extraction_failed_message(stderr),
                },
            ).push(ActionModel::Exit { code: status }),
        ),
{
    let e = probed(args, resolved, false);
    let x = EventModel::ExtractorExited { code: Some(status), stderr };
    lemma_absent_output_extracts(args, resolved);
    lemma_run_push(LauncherModel::Start, e, x);
    lemma_run_push(LauncherModel::Start, e.push(x), EventModel::DialogClosed);
}

/// Running twice on the same archive extracts once. The first run, finding
/// no output directory, extracts into it and succeeds; the second checks
/// the same directory and, as the first run made it, does not extract.
pub proof fn lemma_second_run_does_not_extract(args: Seq<Seq<char>>, resolved: Seq<char>, stderr: Seq<char>)
    requires
        args.len() >= 2,
    ensures
        ({
            let first = run(
                LauncherModel::Start,
                probed(args, resolved, false).push(
                    EventModel::ExtractorExited { code: Some(0i32), stderr },
                ).push(EventModel::BrowserLaunched),
            );
            let second = run(
                LauncherModel::Start,
                probed(args, resolved, true).push(EventModel::BrowserLaunched),
            );
            &&& first.0 == LauncherModel::Done { code: 0 }
            &&& first.1[3] == ActionModel::RunExtractor {
                program: archiver(),
                args: extractor_args(resolved, out_dir_of(resolved)),
            }
            &&& second.0 == LauncherModel::Done { code: 0 }
            &&& second.1[2] == first.1[2]
            &&& first.1[2] == ActionModel::CheckExists { path: out_dir_of(resolved) }
            &&& forall|i: int| 0 <= i < second.1.len() ==> !(second.1[i] is RunExtractor)
        }),
{
    let e = probed(args, resolved, false);
    let x = EventModel::ExtractorExited { code: Some(0i32), stderr };
    lemma_absent_output_extracts(args, resolved);
    lemma_run_push(LauncherModel::Start, e, x);
    lemma_run_push(LauncherModel::Start, e.push(x), EventModel::BrowserLaunched);
    lemma_present_output_skips_extraction(args, resolved);
}

} // verus!
