use hdrcopier::apply::{ApplyError, MuxOutcome, MUXER};
use hdrcopier::cli::{
    dispatch, CliError, Command, Conflict, CopyRequest, Exit, PathFacts, Role, ShowRequest, Step,
};
use hdrcopier::metadata::Metadata;
use hdrcopier::parse::{chapter_probe_arguments, stream_probe_arguments, ExtractError, PROBER};
use hdrcopier::present::InvalidFormat;
use hdrcopier::values::{ColorTransfer, Syntax};

const VIDEO: &str = "[STREAM]\ncodec_type=video\ncolor_transfer=smpte2084\nmax_luminance=10000000/10000\n[/STREAM]\n";
const CHAPTERS: &str = "[CHAPTER]\nstart_time=1.5\nTAG:title=One\n[/CHAPTER]\n";

fn request(chapters: bool) -> CopyRequest {
    CopyRequest {
        input: "in.mkv".to_string(),
        target: "target.mkv".to_string(),
        output: "out.mkv".to_string(),
        chapters,
        chapter_file: "ch.txt".to_string(),
    }
}

fn facts(input: bool, target: bool, dir: bool, file: bool) -> PathFacts {
    PathFacts {
        input_is_file: input,
        target_is_file: target,
        output_is_dir: dir,
        output_is_file: file,
        output_is_source: false,
    }
}

fn stopped(step: Step) -> Exit {
    match step {
        Step::Stop(exit) => exit,
        other => panic!("expected the end, got {:?}", other),
    }
}

#[test]
fn commands_are_known_by_name() {
    assert_eq!(dispatch(Some("copy")).unwrap(), Command::Copy);
    assert_eq!(dispatch(Some("show")).unwrap(), Command::Show);
    for name in [None, Some(""), Some("Copy"), Some("help")] {
        let exit = dispatch(name).unwrap_err();
        assert_eq!(exit.code, 1);
        assert_eq!(
            exit.notice.unwrap(),
            "Unrecognized command entered; see `hdrcopier -h` for usage"
        );
        assert!(exit.output.is_none());
        assert!(!exit.discard_output);
    }
}

#[test]
fn a_missing_input_ends_the_copy() {
    for (target, dir, file) in [(true, false, false), (false, true, true), (false, false, true)] {
        let exit = stopped(request(false).inspected(facts(false, target, dir, file)));
        assert_eq!(exit.code, 1);
        assert_eq!(exit.notice.unwrap(), "Input file \"in.mkv\" does not exist");
        assert!(exit.output.is_none());
        assert!(!exit.discard_output);
    }
}

#[test]
fn a_missing_target_ends_the_copy_before_anything_runs() {
    for (dir, file) in [(false, false), (true, false), (false, true)] {
        let exit = stopped(request(true).inspected(facts(true, false, dir, file)));
        assert_eq!(exit.code, 1);
        assert_eq!(exit.notice.unwrap(), "Target file \"target.mkv\" does not exist");
        assert!(!exit.discard_output);
    }
}

#[test]
fn an_output_that_is_a_directory_ends_the_copy() {
    let exit = stopped(request(false).inspected(facts(true, true, true, false)));
    assert_eq!(exit.code, 1);
    assert_eq!(
        exit.notice.unwrap(),
        "Output location \"out.mkv\" already exists as a directory--cannot proceed, exiting"
    );
    assert!(!exit.discard_output);
}

fn stream_probe() -> Vec<&'static str> {
    vec![
        "-v",
        "error",
        "-select_streams",
        "v:0",
        "-show_streams",
        "-show_frames",
        "-read_intervals",
        "%+#1",
        "-of",
        "default",
        "-i",
        "in.mkv",
    ]
}

fn probing(step: Step) -> Vec<String> {
    match step {
        Step::ProbeStreams(arguments) => arguments,
        other => panic!("expected a probe, got {:?}", other),
    }
}

#[test]
fn an_output_that_exists_is_asked_about() {
    assert!(matches!(request(false).inspected(facts(true, true, false, true)), Step::AskOverwrite));
    assert_eq!(probing(request(false).inspected(facts(true, true, false, false))), stream_probe());
}

#[test]
fn the_prober_is_asked_for_streams_and_for_chapters() {
    assert_eq!(stream_probe_arguments("in.mkv"), stream_probe());
    assert_eq!(
        chapter_probe_arguments("a b.mkv"),
        vec!["-v", "error", "-show_chapters", "-of", "default", "-i", "a b.mkv"]
    );
    assert_eq!(PROBER, "ffprobe");
    assert_eq!(MUXER, "mkvmerge");
}

#[test]
fn a_declined_overwrite_ends_the_copy_and_touches_nothing() {
    let exit = stopped(request(false).answered(false));
    assert_eq!(exit.code, 1);
    assert_eq!(
        exit.notice.unwrap(),
        "Output file \"out.mkv\" already exists and is not overwritten, exiting"
    );
    assert!(exit.output.is_none());
    assert!(!exit.discard_output);
    assert_eq!(probing(request(false).answered(true)), stream_probe());
}

#[test]
fn a_probe_without_metadata_ends_the_copy() {
    let exit = stopped(request(true).probed(false, VIDEO));
    assert_eq!(exit.code, 1);
    assert_eq!(exit.notice.unwrap(), "Could not read the metadata of \"in.mkv\"");
    let exit = stopped(request(true).probed(true, ""));
    assert_eq!(exit.code, 1);
    assert_eq!(exit.notice.unwrap(), "No video stream in \"in.mkv\"");
    assert!(!exit.discard_output);
}

#[test]
fn a_copy_without_chapters_goes_from_the_probe_to_the_muxer() {
    match request(false).probed(true, VIDEO) {
        Step::Mux(plan) => {
            assert_eq!(
                plan.arguments,
                vec![
                    "-o",
                    "out.mkv",
                    "--colour-transfer-characteristics",
                    "0:16",
                    "--max-luminance",
                    "0:1000",
                    "target.mkv"
                ]
            );
            assert!(plan.chapter_sheet.is_none());
        }
        other => panic!("{:?}", other),
    }
}

#[test]
fn a_copy_with_chapters_probes_them_next() {
    let model = match request(true).probed(true, VIDEO) {
        Step::ProbeChapters { model, arguments } => {
            assert_eq!(arguments, vec!["-v", "error", "-show_chapters", "-of", "default", "-i", "in.mkv"]);
            model
        }
        other => panic!("{:?}", other),
    };
    assert_eq!(model.color_transfer, Some(ColorTransfer::Pq));
    match request(true).chapters_probed(&model, true, CHAPTERS) {
        Step::Mux(plan) => {
            assert_eq!(
                plan.arguments,
                vec![
                    "-o",
                    "out.mkv",
                    "--colour-transfer-characteristics",
                    "0:16",
                    "--max-luminance",
                    "0:1000",
                    "--chapters",
                    "ch.txt",
                    "target.mkv"
                ]
            );
            assert_eq!(plan.chapter_sheet.unwrap(), "CHAPTER01=00:00:01.500\nCHAPTER01NAME=One\n");
        }
        other => panic!("{:?}", other),
    }
}

#[test]
fn a_copy_goes_on_without_chapters_where_none_are_found() {
    for (succeeded, report) in [(true, ""), (false, CHAPTERS), (true, VIDEO)] {
        match request(true).chapters_probed(&Metadata::new(), succeeded, report) {
            Step::Mux(plan) => {
                assert_eq!(plan.arguments, vec!["-o", "out.mkv", "target.mkv"]);
                assert!(plan.chapter_sheet.is_none());
            }
            other => panic!("{:?}", other),
        }
    }
}

#[test]
fn the_copy_ends_as_the_muxer_did() {
    let found = facts(true, true, false, false);
    let done = request(false).muxed(found, MuxOutcome::Exited { code: 0, stderr: String::new() });
    assert_eq!(done.code, 0);
    assert_eq!(done.notice.unwrap(), "Done!");
    assert!(done.output.is_none());
    assert!(!done.discard_output);

    let failed =
        request(false).muxed(found, MuxOutcome::Exited { code: 2, stderr: "bad file".to_string() });
    assert_eq!(failed.code, 1);
    assert_eq!(failed.notice.unwrap(), "The muxer failed: bad file");
    assert!(failed.output.is_none());
    assert!(failed.discard_output);

    let not_run =
        request(false).muxed(found, MuxOutcome::NotRun { reason: "not found".to_string() });
    assert_eq!(not_run.code, 1);
    assert_eq!(not_run.notice.unwrap(), "Could not run the muxer: not found");
    assert!(!not_run.discard_output);
}

#[test]
fn a_failed_copy_onto_the_target_leaves_the_target() {
    let failure = || MuxOutcome::Exited { code: 2, stderr: "cannot write".to_string() };
    let mut found = facts(true, true, false, true);

    let mut onto_target = request(false);
    onto_target.output = onto_target.target.clone();
    assert!(matches!(onto_target.inspected(found), Step::AskOverwrite));
    match onto_target.probed(true, VIDEO) {
        Step::Mux(plan) => {
            assert_eq!(plan.arguments.first().unwrap(), "-o");
            assert_eq!(plan.arguments[1], "target.mkv");
            assert_eq!(plan.arguments.last().unwrap(), "target.mkv");
        }
        other => panic!("{:?}", other),
    }
    let exit = onto_target.muxed(found, failure());
    assert_eq!(exit.code, 1);
    assert_eq!(exit.notice.unwrap(), "The muxer failed: cannot write");
    assert!(!exit.discard_output);
    assert!(onto_target.output_is_source(found));

    let mut onto_input = request(true);
    onto_input.output = onto_input.input.clone();
    assert!(!onto_input.muxed(found, failure()).discard_output);
    assert!(onto_input.output_is_source(found));

    assert!(request(false).muxed(found, failure()).discard_output);
    assert!(!request(false).output_is_source(found));
    found.output_is_source = true;
    assert!(!request(false).muxed(found, failure()).discard_output);
    assert!(request(false).output_is_source(found));
    let done = request(false).muxed(found, MuxOutcome::Exited { code: 0, stderr: String::new() });
    assert_eq!(done.code, 0);
    assert!(!done.discard_output);
}

#[test]
fn show_rejects_an_unknown_format_before_anything_else() {
    let exit = ShowRequest::new("missing.mkv".to_string(), Some("h264")).unwrap_err();
    assert_eq!(exit.code, 1);
    assert_eq!(
        exit.notice.unwrap(),
        "Unrecognized format \"h264\"; expected x265, rav1e or mkvmerge"
    );
    assert!(exit.output.is_none());
    assert_eq!(ShowRequest::new("a".to_string(), None).unwrap().syntax, Syntax::Plain);
    assert_eq!(ShowRequest::new("a".to_string(), Some("rav1e")).unwrap().syntax, Syntax::Rav1e);
    assert_eq!(ShowRequest::new("a".to_string(), Some("rav1e")).unwrap().input, "a");
}

#[test]
fn show_needs_its_input() {
    let show = ShowRequest::new("in.mkv".to_string(), None).unwrap();
    let exit = stopped(show.inspected(false));
    assert_eq!(exit.code, 1);
    assert_eq!(exit.notice.unwrap(), "Input file \"in.mkv\" does not exist");
    assert_eq!(probing(show.inspected(true)), stream_probe());
}

#[test]
fn show_prints_transfer_and_max_luminance_for_mkvmerge() {
    let show = ShowRequest::new("in.mkv".to_string(), Some("mkvmerge")).unwrap();
    let exit = show.probed(true, VIDEO);
    assert_eq!(exit.code, 0);
    assert_eq!(
        exit.output.unwrap(),
        "--colour-transfer-characteristics 0:16 --max-luminance 0:1000\n"
    );
    assert!(exit.notice.is_none());
    assert!(!exit.discard_output);
}

#[test]
fn show_prints_a_summary_without_a_format() {
    let show = ShowRequest::new("in.mkv".to_string(), None).unwrap();
    let exit = show.probed(true, VIDEO);
    assert_eq!(exit.code, 0);
    assert_eq!(
        exit.output.unwrap(),
        "Color transfer: smpte2084\nMastering display max luminance: 1000 cd/m2\n"
    );
}

#[test]
fn show_fails_where_the_probe_does() {
    let show = ShowRequest::new("in.mkv".to_string(), Some("x265")).unwrap();
    let exit = show.probed(false, "");
    assert_eq!(exit.code, 1);
    assert!(exit.output.is_none());
    assert_eq!(exit.notice.unwrap(), "Could not read the metadata of \"in.mkv\"");
    let exit = show.probed(true, "[STREAM]\ncodec_type=audio\n[/STREAM]\n");
    assert_eq!(exit.notice.unwrap(), "No video stream in \"in.mkv\"");
}

#[test]
fn every_error_has_its_message_and_its_exit() {
    let conflict = |conflict: Conflict| CliError::OutputConflict { conflict, path: "o p".to_string() };
    let cases: Vec<(CliError, &str, &str)> = vec![
        (
            CliError::FileNotFound { role: Role::Input, path: "a b".to_string() },
            "Input file \"a b\" does not exist",
            "a b",
        ),
        (
            CliError::FileNotFound { role: Role::Target, path: "t".to_string() },
            "Target file \"t\" does not exist",
            "t",
        ),
        (
            conflict(Conflict::Directory),
            "Output location \"o p\" already exists as a directory--cannot proceed, exiting",
            "o p",
        ),
        (
            conflict(Conflict::Declined),
            "Output file \"o p\" already exists and is not overwritten, exiting",
            "o p",
        ),
        (
            CliError::Extract { error: ExtractError::ProbeFailed, path: "i".to_string() },
            "Could not read the metadata of \"i\"",
            "i",
        ),
        (
            CliError::Extract { error: ExtractError::NoStreams, path: "i".to_string() },
            "No video stream in \"i\"",
            "i",
        ),
        (
            CliError::Apply(ApplyError::MuxFailed { stderr: "e r".to_string() }),
            "The muxer failed: e r",
            "e r",
        ),
        (
            CliError::Apply(ApplyError::Io { reason: "r".to_string() }),
            "Could not run the muxer: r",
            "r",
        ),
        (
            CliError::InvalidFormat(InvalidFormat { name: "n".to_string() }),
            "Unrecognized format \"n\"; expected x265, rav1e or mkvmerge",
            "n",
        ),
    ];
    for (error, message, subject) in cases {
        assert_eq!(error.message(), message);
        assert!(error.message().contains(subject));
        let exit = error.into_exit();
        assert_eq!(exit.code, 1);
        assert_eq!(exit.notice.as_deref(), Some(message));
        assert!(exit.output.is_none());
        assert!(!exit.discard_output);
    }
}
