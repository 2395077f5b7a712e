//! The applier: plans the run of the muxer, mkvmerge, that copies the
//! streams of the target into the output and attaches the metadata and the
//! chapters, and judges how the run ended.
use crate::metadata::{chapter_views, Chapter, ChapterView, Metadata};
use crate::numbers::{append_decimal, decimal};
use crate::text::texts;
use crate::values::Syntax;
use vstd::prelude::*;

verus! {

/// The program that muxes.
pub const MUXER: &'static str = "mkvmerge";

/// `n` in at least two digits.
pub open spec fn two_digits(n: nat) -> Seq<char> {
    if n < 10 {
        seq!['0'] + decimal(n)
    } else {
        decimal(n)
    }
}

/// `n` in at least three digits.
pub open spec fn three_digits(n: nat) -> Seq<char> {
    if n < 10 {
        seq!['0', '0'] + decimal(n)
    } else if n < 100 {
        seq!['0'] + decimal(n)
    } else {
        decimal(n)
    }
}

/// A time of `ms` milliseconds as hours, minutes, seconds and milliseconds.
pub open spec fn timestamp(ms: nat) -> Seq<char> {
    two_digits(ms / 3600000) + seq![':'] + two_digits(ms / 60000 % 60) + seq![':'] + two_digits(
        ms / 1000 % 60,
    ) + seq!['.'] + three_digits(ms % 1000)
}

/// A title on one line: each line feed and carriage return gives way to a
/// space.
pub open spec fn one_line(title: Seq<char>) -> Seq<char> {
    Seq::new(
        title.len(),
        |i: int|
            if title[i] == '\n' || title[i] == '\r' {
                ' '
            } else {
                title[i]
            },
    )
}

/// The two lines that describe the chapter with the number `number` in a
/// simple chapter file: its start and its name.
pub open spec fn chapter_entry(number: nat, c: ChapterView) -> Seq<char> {
    "CHAPTER"@ + two_digits(number) + seq!['='] + timestamp(c.start_ms) + seq!['\n'] + "CHAPTER"@
        + two_digits(number) + "NAME="@ + one_line(c.title) + seq!['\n']
}

/// The simple chapter file for `chapters`, numbered from one in their order.
pub open spec fn chapter_sheet(chapters: Seq<ChapterView>) -> Seq<char>
    decreases chapters.len(),
{
    if chapters.len() == 0 {
        Seq::empty()
    } else {
        chapter_sheet(chapters.drop_last()) + chapter_entry(chapters.len(), chapters.last())
    }
}

/// The arguments of the muxer: the output, the metadata that the model
/// holds as mkvmerge's options, the chapter file where there is one, and
/// last the target, whose streams are copied as they are.
pub open spec fn mux_arguments(
    model: Metadata,
    target: Seq<char>,
    output: Seq<char>,
    chapter_file: Option<Seq<char>>,
) -> Seq<Seq<char>> {
    seq!["-o"@, output] + model.options(Syntax::Mkvmerge) + match chapter_file {
        Some(path) => seq!["--chapters"@, path],
        None => Seq::empty(),
    } + seq![target]
}

/// A planned run of the muxer.
#[derive(Clone, Debug)]
pub struct MuxPlan {
    /// What to write to the chapter file before the run; `None` where no
    /// chapters are attached and no file is needed.
    pub chapter_sheet: Option<String>,
    /// The arguments of the muxer.
    pub arguments: Vec<String>,
}

/// How a run of the muxer ended.
#[derive(Clone, Debug)]
pub enum MuxOutcome {
    /// The muxer ran and exited with `code`, having written `stderr` to its
    /// error stream.
    Exited { code: i32, stderr: String },
    /// The muxer could not be run, or the chapter file or the output could
    /// not be written.
    NotRun { reason: String },
}

/// Why the metadata could not be applied.
#[derive(Clone, Debug)]
pub enum ApplyError {
    /// The muxer exited with a status other than zero; `stderr` is what it
    /// wrote to its error stream.
    MuxFailed { stderr: String },
    /// The muxer could not be run, or a file could not be written.
    Io { reason: String },
}

fn append_two_digits(out: &mut String, n: u64)
    ensures
        final(out)@ == old(out)@ + two_digits(n as nat),
{
    if n < 10 {
        out.append("0");
    }
    append_decimal(out, n);
    proof {
        reveal_strlit("0");
        assert(out@ =~= old(out)@ + two_digits(n as nat));
    }
}

fn append_three_digits(out: &mut String, n: u64)
    ensures
        final(out)@ == old(out)@ + three_digits(n as nat),
{
    if n < 10 {
        out.append("00");
    } else if n < 100 {
        out.append("0");
    }
    append_decimal(out, n);
    proof {
        reveal_strlit("0");
        reveal_strlit("00");
        assert(out@ =~= old(out)@ + three_digits(n as nat));
    }
}

/// Appends the time of `ms` milliseconds as hours, minutes, seconds and
/// milliseconds.
pub fn append_timestamp(out: &mut String, ms: u64)
    ensures
        final(out)@ == old(out)@ + timestamp(ms as nat),
{
    append_two_digits(out, ms / 3600000);
    out.append(":");
    append_two_digits(out, ms / 60000 % 60);
    out.append(":");
    append_two_digits(out, ms / 1000 % 60);
    out.append(".");
    append_three_digits(out, ms % 1000);
    proof {
        reveal_strlit(":");
        reveal_strlit(".");
        assert(out@ =~= old(out)@ + timestamp(ms as nat));
    }
}

fn append_one_line(out: &mut String, title: &str)
    ensures
        final(out)@ == old(out)@ + one_line(title@),
{
    let chars = crate::text::chars_of(title);
    let mut i: usize = 0;
    assert(one_line(title@).take(0) =~= Seq::<char>::empty());
    while i < chars.len()
        invariant
            0 <= i <= chars.len(),
            chars@ == title@,
            out@ == old(out)@ + one_line(title@).take(i as int),
        decreases chars.len() - i,
    {
        let c = chars[i];
        if c == '\n' || c == '\r' {
            out.push(' ');
        } else {
            out.push(c);
        }
        assert(one_line(title@).take(i + 1) =~= one_line(title@).take(i as int).push(
            one_line(title@)[i as int],
        ));
        i = i + 1;
    }
    assert(one_line(title@).take(i as int) =~= one_line(title@));
}

fn append_chapter_entry(out: &mut String, number: u64, chapter: &Chapter)
    ensures
        final(out)@ == old(out)@ + chapter_entry(number as nat, chapter@),
{
    out.append("CHAPTER");
    append_two_digits(out, number);
    out.append("=");
    append_timestamp(out, chapter.start_ms);
    out.append("\n");
    out.append("CHAPTER");
    append_two_digits(out, number);
    out.append("NAME=");
    append_one_line(out, chapter.title.as_str());
    out.append("\n");
    proof {
        reveal_strlit("=");
        reveal_strlit("\n");
        assert(out@ =~= old(out)@ + chapter_entry(number as nat, chapter@));
    }
}

/// Writes the simple chapter file for `chapters`.
pub fn write_chapter_sheet(chapters: &[Chapter]) -> (sheet: String)
    ensures
        sheet@ == chapter_sheet(chapter_views(chapters@)),
{
    let mut sheet = String::new();
    let mut i: usize = 0;
    let ghost all = chapter_views(chapters@);
    assert(all.take(0) =~= Seq::<ChapterView>::empty());
    while i < chapters.len()
        invariant
            0 <= i <= chapters.len(),
            all == chapter_views(chapters@),
            sheet@ == chapter_sheet(all.take(i as int)),
        decreases chapters.len() - i,
    {
        proof {
            assert(all.take(i + 1).drop_last() =~= all.take(i as int));
            assert(all.take(i + 1).last() == chapters@[i as int]@);
        }
        append_chapter_entry(&mut sheet, i as u64 + 1, &chapters[i]);
        i = i + 1;
    }
    assert(all.take(i as int) =~= all);
    sheet
}

impl Metadata {
    /// Plans the run of the muxer that copies the streams of `target` into
    /// `output` and attaches what the model holds, and `chapters` where
    /// there are any. The chapters travel in a file at `chapter_file`, which
    /// the plan fills; without chapters the file is neither written nor
    /// named. A field that the model does not hold adds no argument.
    pub fn apply(
        &self,
        target: &str,
        output: &str,
        chapters: Option<&[Chapter]>,
        chapter_file: &str,
    ) -> (plan: MuxPlan)
        ensures
            plan.chapter_sheet is Some <==> chapters is Some && chapters->0@.len() > 0,
            plan.chapter_sheet is Some ==> plan.chapter_sheet->0@ == chapter_sheet(
                chapter_views(chapters->0@),
            ),
            texts(plan.arguments@) == mux_arguments(
                *self,
                target@,
                output@,
                if chapters is Some && chapters->0@.len() > 0 {
                    Some(chapter_file@)
                } else {
                    None
                },
            ),
    {
        let mut arguments: Vec<String> = Vec::new();
        arguments.push(String::from_str("-o"));
        arguments.push(String::from_str(output));
        let ghost head = texts(arguments@);
        assert(head =~= seq!["-o"@, output@]);
        let mut options = self.tokens(Syntax::Mkvmerge);
        let ghost middle = texts(options@);
        arguments.append(&mut options);
        assert(texts(arguments@) =~= head + middle);
        let sheet = match chapters {
            Some(list) => if list.len() > 0 {
                Some(write_chapter_sheet(list))
            } else {
                None
            },
            None => None,
        };
        let ghost before = texts(arguments@);
        if sheet.is_some() {
            arguments.push(String::from_str("--chapters"));
            arguments.push(String::from_str(chapter_file));
            assert(texts(arguments@) =~= before + seq!["--chapters"@, chapter_file@]);
        } else {
            assert(texts(arguments@) =~= before + Seq::<Seq<char>>::empty());
        }
        let ghost almost = texts(arguments@);
        arguments.push(String::from_str(target));
        assert(texts(arguments@) =~= almost + seq![target@]);
        MuxPlan { chapter_sheet: sheet, arguments }
    }

    /// With a model that asserts nothing and without chapters the muxer is
    /// asked for a plain copy of the target's streams: the output, the
    /// target, and no option besides.
    pub proof fn nothing_applies_as_plain_copy(self, target: Seq<char>, output: Seq<char>)
        requires
            self.is_nothing(),
        ensures
            mux_arguments(self, target, output, None) == seq!["-o"@, output, target],
    {
        self.nothing_writes_nothing(Syntax::Mkvmerge);
        assert(mux_arguments(self, target, output, None) =~= seq!["-o"@, output, target]);
    }
}

/// Judges how the run of the muxer ended: well where it exited with status
/// zero, with `MuxFailed` and its error text where it exited otherwise, with
/// `Io` where it could not be run or a file could not be written.
pub fn conclude(outcome: MuxOutcome) -> (r: Result<(), ApplyError>)
    ensures
        match outcome {
            MuxOutcome::Exited { code, stderr } => if code == 0 {
                r is Ok
            } else {
                r matches Err(ApplyError::MuxFailed { stderr: e }) && e@ == stderr@
            },
            MuxOutcome::NotRun { reason } => r matches Err(ApplyError::Io { reason: e }) && e@
                == reason@,
        },
{
    match outcome {
        MuxOutcome::Exited { code, stderr } => if code == 0 {
            Ok(())
        } else {
            Err(ApplyError::MuxFailed { stderr })
        },
        MuxOutcome::NotRun { reason } => Err(ApplyError::Io { reason }),
    }
}

} // verus!
