//! The decisions of the two commands, `copy` and `show`. Each function
//! takes what the caller has just found out (what is at the paths, what the
//! user answered, what the prober printed, how the muxer ended) and says
//! what to do next; the caller touches the files, asks the user and runs the
//! two programs.
use crate::apply::{chapter_sheet, conclude, mux_arguments, ApplyError, MuxOutcome, MuxPlan};
use crate::metadata::Metadata;
use crate::parse::{
    chapter_probe, chapter_probe_arguments, extract_chapters, extracted, parsed, stream_probe,
    stream_probe_arguments, ExtractError,
};
use crate::present::{format_view, InvalidFormat};
use crate::text::{chars_of, same_text, texts};
use crate::values::Syntax;
use vstd::prelude::*;

verus! {

/// Which of the two files that must exist a path names.
#[derive(Clone, Copy, Debug, PartialEq, Eq, Structural)]
pub enum Role {
    Input,
    Target,
}

/// What stands in the way at the output path.
#[derive(Clone, Copy, Debug, PartialEq, Eq, Structural)]
pub enum Conflict {
    /// The output path is a directory.
    Directory,
    /// The output path is a file and the user does not want it overwritten.
    Declined,
}

/// Why a command ends without success.
#[derive(Clone, Debug)]
pub enum CliError {
    /// The input or the target is not a file.
    FileNotFound { role: Role, path: String },
    /// The output cannot be written at `path`, where it is asked for.
    OutputConflict { conflict: Conflict, path: String },
    /// The metadata of the file at `path` could not be read.
    Extract { error: ExtractError, path: String },
    /// The metadata could not be applied.
    Apply(ApplyError),
    /// The format asked for is not known.
    InvalidFormat(InvalidFormat),
}

/// How a command ends.
#[derive(Clone, Debug)]
pub struct Exit {
    /// The exit status of the process: 0 for success, 1 for failure.
    pub code: i32,
    /// What to print on the output stream, as it is.
    pub output: Option<String>,
    /// What to print on the error stream, on a line of its own.
    pub notice: Option<String>,
    /// Whether to remove what stands at the output path: the muxer ran and
    /// failed, what it left there is not a result, and the path leads to
    /// neither the input nor the target.
    pub discard_output: bool,
}

/// The end of a command as a plain value.
pub struct ExitView {
    pub code: int,
    pub output: Option<Seq<char>>,
    pub notice: Option<Seq<char>>,
    pub discard_output: bool,
}

/// What the caller does next.
#[derive(Clone, Debug)]
pub enum Step {
    /// Ask the user whether the output file may be overwritten.
    AskOverwrite,
    /// Run the prober with these arguments, for the streams of the input.
    ProbeStreams(Vec<String>),
    /// Run the prober with these arguments, for the chapters of the input;
    /// the model has been read.
    ProbeChapters { model: Metadata, arguments: Vec<String> },
    /// Write the chapter file, if the plan has one, and run the muxer.
    Mux(MuxPlan),
    /// End the process.
    Stop(Exit),
}

/// The next step as a plain value.
pub enum StepView {
    AskOverwrite,
    ProbeStreams(Seq<Seq<char>>),
    ProbeChapters { model: Metadata, arguments: Seq<Seq<char>> },
    Mux { chapter_sheet: Option<Seq<char>>, arguments: Seq<Seq<char>> },
    Stop(ExitView),
}

/// An optional string as a plain value.
pub open spec fn text_view(t: Option<String>) -> Option<Seq<char>> {
    match t {
        Some(s) => Some(s@),
        None => None,
    }
}

impl View for Exit {
    type V = ExitView;

    open spec fn view(&self) -> ExitView {
        ExitView {
            code: self.code as int,
            output: text_view(self.output),
            notice: text_view(self.notice),
            discard_output: self.discard_output,
        }
    }
}

impl View for Step {
    type V = StepView;

    open spec fn view(&self) -> StepView {
        match *self {
            Step::AskOverwrite => StepView::AskOverwrite,
            Step::ProbeStreams(arguments) => StepView::ProbeStreams(texts(arguments@)),
            Step::ProbeChapters { model, arguments } => StepView::ProbeChapters {
                model,
                arguments: texts(arguments@),
            },
            Step::Mux(plan) => StepView::Mux {
                chapter_sheet: text_view(plan.chapter_sheet),
                arguments: texts(plan.arguments@),
            },
            Step::Stop(exit) => StepView::Stop(exit@),
        }
    }
}

/// `path` between double quotes.
pub open spec fn quoted(path: Seq<char>) -> Seq<char> {
    seq!['"'] + path + seq!['"']
}

/// Whether `part` stands somewhere in `text`, as it is.
pub open spec fn mentions(text: Seq<char>, part: Seq<char>) -> bool {
    exists|i: int|
        0 <= i && i + part.len() <= text.len() && #[trigger] text.subrange(i, i + part.len())
            == part
}

impl CliError {
    /// What the user is told of the error. Every error has its notice, and
    /// the notice names what went wrong: the path that is missing or in the
    /// way, the file that could not be read, what the muxer said, the format
    /// that is not known.
    pub open spec fn notice(&self) -> Seq<char> {
        match *self {
            CliError::FileNotFound { role, path } => (match role {
                Role::Input => "Input file "@,
                Role::Target => "Target file "@,
            }) + quoted(path@) + " does not exist"@,
            CliError::OutputConflict { conflict, path } => match conflict {
                Conflict::Directory => "Output location "@ + quoted(path@)
                    + " already exists as a directory--cannot proceed, exiting"@,
                Conflict::Declined => "Output file "@ + quoted(path@)
                    + " already exists and is not overwritten, exiting"@,
            },
            CliError::Extract { error, path } => (match error {
                ExtractError::ProbeFailed => "Could not read the metadata of "@,
                ExtractError::NoStreams => "No video stream in "@,
            }) + quoted(path@),
            CliError::Apply(ApplyError::MuxFailed { stderr }) => "The muxer failed: "@ + stderr@,
            CliError::Apply(ApplyError::Io { reason }) => "Could not run the muxer: "@ + reason@,
            CliError::InvalidFormat(InvalidFormat { name }) => "Unrecognized format "@ + quoted(
                name@,
            ) + "; expected x265, rav1e or mkvmerge"@,
        }
    }

    /// What the error is about: the path, the text of the muxer or of the
    /// system, or the name of the format.
    pub open spec fn subject(&self) -> Seq<char> {
        match *self {
            CliError::FileNotFound { role, path } => path@,
            CliError::OutputConflict { conflict, path } => path@,
            CliError::Extract { error, path } => path@,
            CliError::Apply(ApplyError::MuxFailed { stderr }) => stderr@,
            CliError::Apply(ApplyError::Io { reason }) => reason@,
            CliError::InvalidFormat(InvalidFormat { name }) => name@,
        }
    }

    /// The end of the command that the error brings: status 1, the notice
    /// on the error stream, nothing on the output stream, and nothing
    /// removed.
    pub open spec fn exit(&self) -> ExitView {
        ExitView { code: 1, output: None, notice: Some(self.notice()), discard_output: false }
    }

    /// The notice of every error holds what the error is about, as it is.
    pub proof fn notice_names_its_subject(&self)
        ensures
            mentions(self.notice(), self.subject()),
    {
        let text = self.notice();
        let part = self.subject();
        let lead: Seq<char> = match *self {
            CliError::FileNotFound { role, path } => (match role {
                Role::Input => "Input file "@,
                Role::Target => "Target file "@,
            }) + seq!['"'],
            CliError::OutputConflict { conflict, path } => (match conflict {
                Conflict::Directory => "Output location "@,
                Conflict::Declined => "Output file "@,
            }) + seq!['"'],
            CliError::Extract { error, path } => (match error {
                ExtractError::ProbeFailed => "Could not read the metadata of "@,
                ExtractError::NoStreams => "No video stream in "@,
            }) + seq!['"'],
            CliError::Apply(ApplyError::MuxFailed { stderr }) => "The muxer failed: "@,
            CliError::Apply(ApplyError::Io { reason }) => "Could not run the muxer: "@,
            CliError::InvalidFormat(InvalidFormat { name }) => "Unrecognized format "@ + seq!['"'],
        };
        let i = lead.len() as int;
        assert(text.subrange(i, i + part.len()) =~= part);
    }

    /// What the user is told of the error.
    pub fn message(&self) -> (r: String)
        ensures
            r@ == self.notice(),
    {
        match self {
            CliError::FileNotFound { role, path } => {
                let mut m = match role {
                    Role::Input => String::from_str("Input file "),
                    Role::Target => String::from_str("Target file "),
                };
                append_quoted(&mut m, path.as_str());
                m.append(" does not exist");
                m
            },
            CliError::OutputConflict { conflict, path } => {
                let mut m = match conflict {
                    Conflict::Directory => String::from_str("Output location "),
                    Conflict::Declined => String::from_str("Output file "),
                };
                append_quoted(&mut m, path.as_str());
                match conflict {
                    Conflict::Directory => {
                        m.append(" already exists as a directory--cannot proceed, exiting");
                    },
                    Conflict::Declined => {
                        m.append(" already exists and is not overwritten, exiting");
                    },
                }
                m
            },
            CliError::Extract { error, path } => {
                let mut m = match error {
                    ExtractError::ProbeFailed => String::from_str("Could not read the metadata of "),
                    ExtractError::NoStreams => String::from_str("No video stream in "),
                };
                append_quoted(&mut m, path.as_str());
                m
            },
            CliError::Apply(ApplyError::MuxFailed { stderr }) => {
                let mut m = String::from_str("The muxer failed: ");
                m.append(stderr.as_str());
                m
            },
            CliError::Apply(ApplyError::Io { reason }) => {
                let mut m = String::from_str("Could not run the muxer: ");
                m.append(reason.as_str());
                m
            },
            CliError::InvalidFormat(InvalidFormat { name }) => {
                let mut m = String::from_str("Unrecognized format ");
                append_quoted(&mut m, name.as_str());
                m.append("; expected x265, rav1e or mkvmerge");
                m
            },
        }
    }

    /// The end of the command that the error brings.
    pub fn into_exit(self) -> (e: Exit)
        ensures
            e@ == self.exit(),
    {
        let notice = self.message();
        Exit { code: 1, output: None, notice: Some(notice), discard_output: false }
    }
}

fn append_quoted(out: &mut String, path: &str)
    ensures
        final(out)@ == old(out)@ + quoted(path@),
{
    out.append("\"");
    out.append(path);
    out.append("\"");
    proof {
        reveal_strlit("\"");
        assert(out@ =~= old(out)@ + quoted(path@));
    }
}

/// One of the two commands.
#[derive(Clone, Copy, Debug, PartialEq, Eq, Structural)]
pub enum Command {
    Copy,
    Show,
}

/// The end of a command that succeeded: status 0, with `output` on the
/// output stream and `notice` on the error stream.
pub open spec fn success(output: Option<Seq<char>>, notice: Option<Seq<char>>) -> ExitView {
    ExitView { code: 0, output, notice, discard_output: false }
}

/// The end of a run in which no command was named, or one that is not
/// known.
pub open spec fn unknown_command() -> ExitView {
    ExitView {
        code: 1,
        output: None,
        notice: Some("Unrecognized command entered; see `hdrcopier -h` for usage"@),
        discard_output: false,
    }
}

/// The command that `name` names, where it names one.
pub open spec fn command_of(name: Option<Seq<char>>) -> Option<Command> {
    match name {
        Some(n) => if n == "copy"@ {
            Some(Command::Copy)
        } else if n == "show"@ {
            Some(Command::Show)
        } else {
            None
        },
        None => None,
    }
}

/// Picks the command that was named on the command line, or ends the run
/// where none was.
pub fn dispatch(name: Option<&str>) -> (r: Result<Command, Exit>)
    ensures
        r is Ok <==> command_of(format_view(name)) is Some,
        r is Ok ==> r->Ok_0 == command_of(format_view(name))->0,
        r is Err ==> r->Err_0@ == unknown_command(),
{
    if let Some(n) = name {
        let chars = chars_of(n);
        if same_text(chars.as_slice(), "copy") {
            return Ok(Command::Copy);
        }
        if same_text(chars.as_slice(), "show") {
            return Ok(Command::Show);
        }
    }
    Err(
        Exit {
            code: 1,
            output: None,
            notice: Some(
                String::from_str("Unrecognized command entered; see `hdrcopier -h` for usage"),
            ),
            discard_output: false,
        },
    )
}

/// What was found at the paths of a copy.
#[derive(Clone, Copy, Debug, PartialEq, Eq, Structural)]
pub struct PathFacts {
    pub input_is_file: bool,
    pub target_is_file: bool,
    pub output_is_dir: bool,
    pub output_is_file: bool,
    /// Whether the output path leads to the file that the input path or the
    /// target path leads to, by whatever way: a link, or another spelling of
    /// the path.
    pub output_is_source: bool,
}

/// What the user asked `copy` for.
#[derive(Clone, Debug)]
pub struct CopyRequest {
    /// The file to copy metadata from.
    pub input: String,
    /// The file whose streams are copied; it is not modified.
    pub target: String,
    /// Where the combined file goes.
    pub output: String,
    /// Whether the chapters of the input are copied too.
    pub chapters: bool,
    /// Where the chapter file is written if there are chapters to copy.
    pub chapter_file: String,
}

impl CopyRequest {
    /// The step after the paths were looked at. The input and the target
    /// must be files, in this order; the output must not be a directory;
    /// and where the output is a file already the user is asked before
    /// anything else happens.
    pub open spec fn after_inspection(&self, facts: PathFacts) -> StepView {
        if !facts.input_is_file {
            StepView::Stop(CliError::FileNotFound { role: Role::Input, path: self.input }.exit())
        } else if !facts.target_is_file {
            StepView::Stop(
                CliError::FileNotFound { role: Role::Target, path: self.target }.exit(),
            )
        } else if facts.output_is_dir {
            StepView::Stop(
                CliError::OutputConflict {
                    conflict: Conflict::Directory,
                    path: self.output,
                }.exit(),
            )
        } else if facts.output_is_file {
            StepView::AskOverwrite
        } else {
            StepView::ProbeStreams(stream_probe(self.input@))
        }
    }

    /// The step after the user answered: on to the prober, or the end.
    pub open spec fn after_answer(&self, overwrite: bool) -> StepView {
        if overwrite {
            StepView::ProbeStreams(stream_probe(self.input@))
        } else {
            StepView::Stop(
                CliError::OutputConflict { conflict: Conflict::Declined, path: self.output }.exit(),
            )
        }
    }

    /// The step after the prober looked at the streams of the input: the
    /// end where no metadata can be read; else the chapters, where they
    /// were asked for; else the muxer, without a chapter file.
    pub open spec fn after_probe(&self, succeeded: bool, report: Seq<char>) -> StepView {
        match parsed(succeeded, report) {
            Err(error) => StepView::Stop(CliError::Extract { error, path: self.input }.exit()),
            Ok(model) => if self.chapters {
                StepView::ProbeChapters { model, arguments: chapter_probe(self.input@) }
            } else {
                StepView::Mux {
                    chapter_sheet: None,
                    arguments: mux_arguments(model, self.target@, self.output@, None),
                }
            },
        }
    }

    /// The step after the prober looked at the chapters of the input: the
    /// muxer, with the chapters that were found, or without a chapter file
    /// where none was found or the prober failed.
    pub open spec fn after_chapters(
        &self,
        model: Metadata,
        succeeded: bool,
        report: Seq<char>,
    ) -> StepView {
        match extracted(succeeded, report) {
            Some(chapters) => StepView::Mux {
                chapter_sheet: Some(chapter_sheet(chapters)),
                arguments: mux_arguments(
                    model,
                    self.target@,
                    self.output@,
                    Some(self.chapter_file@),
                ),
            },
            None => StepView::Mux {
                chapter_sheet: None,
                arguments: mux_arguments(model, self.target@, self.output@, None),
            },
        }
    }

    /// Whether the output path is that of the input or of the target: the
    /// caller found it to lead to the same file, or the paths are spelt
    /// alike.
    pub open spec fn output_is_a_source(&self, facts: PathFacts) -> bool {
        facts.output_is_source || self.output@ == self.input@ || self.output@ == self.target@
    }

    /// The end of the copy, from how the muxer ended. Where the muxer ran
    /// and failed, what it left at the output path is to be removed, so that
    /// nothing there passes for a result; but never where that path is the
    /// input's or the target's, which the copy leaves as they are.
    pub open spec fn after_mux(&self, facts: PathFacts, outcome: MuxOutcome) -> ExitView {
        match outcome {
            MuxOutcome::Exited { code, stderr } => if code == 0 {
                success(None, Some("Done!"@))
            } else {
                ExitView {
                    code: 1,
                    output: None,
                    notice: Some(CliError::Apply(ApplyError::MuxFailed { stderr }).notice()),
                    discard_output: !self.output_is_a_source(facts),
                }
            },
            MuxOutcome::NotRun { reason } => CliError::Apply(ApplyError::Io { reason }).exit(),
        }
    }

    /// Decides what follows once the paths have been looked at.
    pub fn inspected(&self, facts: PathFacts) -> (step: Step)
        ensures
            step@ == self.after_inspection(facts),
    {
        if !facts.input_is_file {
            Step::Stop(
                CliError::FileNotFound { role: Role::Input, path: self.input.clone() }.into_exit(),
            )
        } else if !facts.target_is_file {
            Step::Stop(
                CliError::FileNotFound {
                    role: Role::Target,
                    path: self.target.clone(),
                }.into_exit(),
            )
        } else if facts.output_is_dir {
            Step::Stop(
                CliError::OutputConflict {
                    conflict: Conflict::Directory,
                    path: self.output.clone(),
                }.into_exit(),
            )
        } else if facts.output_is_file {
            Step::AskOverwrite
        } else {
            Step::ProbeStreams(stream_probe_arguments(self.input.as_str()))
        }
    }

    /// Decides what follows once the user has said whether the output file
    /// may be overwritten.
    pub fn answered(&self, overwrite: bool) -> (step: Step)
        ensures
            step@ == self.after_answer(overwrite),
    {
        if overwrite {
            Step::ProbeStreams(stream_probe_arguments(self.input.as_str()))
        } else {
            Step::Stop(
                CliError::OutputConflict {
                    conflict: Conflict::Declined,
                    path: self.output.clone(),
                }.into_exit(),
            )
        }
    }

    /// Decides what follows once the prober has looked at the streams of
    /// the input.
    pub fn probed(&self, succeeded: bool, report: &str) -> (step: Step)
        ensures
            step@ == self.after_probe(succeeded, report@),
    {
        match Metadata::parse(succeeded, report) {
            Err(error) => Step::Stop(
                CliError::Extract { error, path: self.input.clone() }.into_exit(),
            ),
            Ok(model) => if self.chapters {
                Step::ProbeChapters {
                    model,
                    arguments: chapter_probe_arguments(self.input.as_str()),
                }
            } else {
                Step::Mux(
                    model.apply(
                        self.target.as_str(),
                        self.output.as_str(),
                        None,
                        self.chapter_file.as_str(),
                    ),
                )
            },
        }
    }

    /// Decides what follows once the prober has looked at the chapters of
    /// the input.
    pub fn chapters_probed(&self, model: &Metadata, succeeded: bool, report: &str) -> (step: Step)
        ensures
            step@ == self.after_chapters(*model, succeeded, report@),
    {
        let plan = match extract_chapters(succeeded, report) {
            Some(chapters) => model.apply(
                self.target.as_str(),
                self.output.as_str(),
                Some(chapters.as_slice()),
                self.chapter_file.as_str(),
            ),
            None => model.apply(
                self.target.as_str(),
                self.output.as_str(),
                None,
                self.chapter_file.as_str(),
            ),
        };
        Step::Mux(plan)
    }

    /// Decides how the copy ends once the muxer has ended; `facts` is what
    /// was found at the paths before the copy began.
    pub fn muxed(&self, facts: PathFacts, outcome: MuxOutcome) -> (exit: Exit)
        ensures
            exit@ == self.after_mux(facts, outcome),
    {
        match conclude(outcome) {
            Ok(()) => Exit {
                code: 0,
                output: None,
                notice: Some(String::from_str("Done!")),
                discard_output: false,
            },
            Err(error) => {
                let spare = match error {
                    ApplyError::MuxFailed { .. } => self.output_is_source(facts),
                    ApplyError::Io { .. } => true,
                };
                let mut exit = CliError::Apply(error).into_exit();
                exit.discard_output = !spare;
                exit
            },
        }
    }

    /// Whether the output path is that of the input or of the target.
    pub fn output_is_source(&self, facts: PathFacts) -> (r: bool)
        ensures
            r == self.output_is_a_source(facts),
    {
        if facts.output_is_source {
            return true;
        }
        let output = chars_of(self.output.as_str());
        same_text(output.as_slice(), self.input.as_str()) || same_text(
            output.as_slice(),
            self.target.as_str(),
        )
    }

    /// A failed copy never has the input or the target removed: where the
    /// output path is the input's or the target's, nothing is removed,
    /// however the muxer ended.
    pub proof fn failed_copy_spares_its_sources(&self, facts: PathFacts, outcome: MuxOutcome)
        requires
            self.output_is_a_source(facts),
        ensures
            !self.after_mux(facts, outcome).discard_output,
    {
    }

    /// Every way in which a copy fails ends with status 1 and a notice on
    /// the error stream, and never with the notice of success.
    pub proof fn failed_mux_is_reported(&self, facts: PathFacts, outcome: MuxOutcome)
        requires
            !(outcome matches MuxOutcome::Exited { code, .. } && code == 0),
        ensures
            self.after_mux(facts, outcome).code == 1,
            self.after_mux(facts, outcome).notice is Some,
            self.after_mux(facts, outcome).output is None,
    {
    }

    /// Where the target is missing the copy ends with status 1 at once:
    /// no program is run, the user is not asked and nothing is written.
    pub proof fn missing_target_stops_at_once(&self, facts: PathFacts)
        requires
            !facts.target_is_file,
        ensures
            self.after_inspection(facts) matches StepView::Stop(exit) && exit.code == 1
                && !exit.discard_output,
    {
    }

    /// Where the user declines to overwrite the output the copy ends with
    /// status 1, says so with the output path, and leaves what is at that
    /// path alone.
    pub proof fn declined_overwrite_stops(&self)
        ensures
            self.after_answer(false) matches StepView::Stop(exit) && exit.code == 1
                && !exit.discard_output && exit.notice is Some && mentions(
                exit.notice->0,
                self.output@,
            ),
    {
        CliError::OutputConflict {
            conflict: Conflict::Declined,
            path: self.output,
        }.notice_names_its_subject();
    }
}

/// What the user asked `show` for.
#[derive(Clone, Debug)]
pub struct ShowRequest {
    /// The file to read metadata from.
    pub input: String,
    /// The syntax to show the metadata in.
    pub syntax: Syntax,
}

impl ShowRequest {
    /// What `show` was asked for, where the format is known; the format is
    /// judged before anything is read.
    pub open spec fn requested(input: String, format: Option<Seq<char>>) -> Result<
        ShowRequest,
        ExitView,
    > {
        match Syntax::of_format(format) {
            Some(syntax) => Ok(ShowRequest { input, syntax }),
            None => Err(
                ExitView {
                    code: 1,
                    output: None,
                    notice: Some(
                        "Unrecognized format "@ + quoted(format->0)
                            + "; expected x265, rav1e or mkvmerge"@,
                    ),
                    discard_output: false,
                },
            ),
        }
    }

    /// The step after the input path was looked at.
    pub open spec fn after_inspection(&self, input_is_file: bool) -> StepView {
        if input_is_file {
            StepView::ProbeStreams(stream_probe(self.input@))
        } else {
            StepView::Stop(CliError::FileNotFound { role: Role::Input, path: self.input }.exit())
        }
    }

    /// The end of `show`, from what the prober did: the model printed in
    /// the syntax asked for, or the error.
    pub open spec fn after_probe(&self, succeeded: bool, report: Seq<char>) -> ExitView {
        match parsed(succeeded, report) {
            Ok(model) => success(Some(model.printed(self.syntax)), None),
            Err(error) => CliError::Extract { error, path: self.input }.exit(),
        }
    }

    /// Takes up what `show` was asked for, or ends the run where the format
    /// is not known.
    pub fn new(input: String, format: Option<&str>) -> (r: Result<ShowRequest, Exit>)
        ensures
            match ShowRequest::requested(input, format_view(format)) {
                Ok(request) => r is Ok && r->Ok_0 == request,
                Err(exit) => r is Err && r->Err_0@ == exit,
            },
    {
        match Syntax::from_format(format) {
            Ok(syntax) => Ok(ShowRequest { input, syntax }),
            Err(error) => Err(CliError::InvalidFormat(error).into_exit()),
        }
    }

    /// Decides what follows once the input path has been looked at.
    pub fn inspected(&self, input_is_file: bool) -> (step: Step)
        ensures
            step@ == self.after_inspection(input_is_file),
    {
        if input_is_file {
            Step::ProbeStreams(stream_probe_arguments(self.input.as_str()))
        } else {
            Step::Stop(
                CliError::FileNotFound { role: Role::Input, path: self.input.clone() }.into_exit(),
            )
        }
    }

    /// Decides how `show` ends once the prober has looked at the streams of
    /// the input.
    pub fn probed(&self, succeeded: bool, report: &str) -> (exit: Exit)
        ensures
            exit@ == self.after_probe(succeeded, report@),
    {
        match Metadata::parse(succeeded, report) {
            Ok(model) => Exit {
                code: 0,
                output: Some(model.print(self.syntax)),
                notice: None,
                discard_output: false,
            },
            Err(error) => CliError::Extract { error, path: self.input.clone() }.into_exit(),
        }
    }
}

} // verus!
