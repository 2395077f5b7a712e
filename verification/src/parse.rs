//! The extractor: reads what the prober printed about a file into the
//! metadata model and the chapter list.
//!
//! The prober is ffprobe with its default writer: a section starts with its
//! name in square brackets on a line of its own and ends with the name behind
//! a slash, and holds one `key=value` line for each property.
use crate::mapper::{read_back, read_value, reads_number, Field, Luminance, Value};
use crate::metadata::{chapter_views, Chapter, ChapterView, Metadata};
use crate::numbers::{
    fixed_value, is_fixed, is_ratio, number, parse_fixed, parse_number, parse_ratio,
    ratio_denominator, ratio_numerator, ratio_ten_thousandths,
};
use crate::text::{
    chars_of, find_line, first_index, first_index_contains, has_prefix,
    report_lines, split_report, starts_with, string_of, texts, views,
};
use crate::values::Syntax;
use vstd::prelude::*;

verus! {

/// The program that probes a file.
pub const PROBER: &'static str = "ffprobe";

/// The arguments with which the prober reports on the first video stream of
/// `input` and on that stream's first frame, where the side data of a coded
/// stream is found.
pub open spec fn stream_probe(input: Seq<char>) -> Seq<Seq<char>> {
    seq![
        "-v"@,
        "error"@,
        "-select_streams"@,
        "v:0"@,
        "-show_streams"@,
        "-show_frames"@,
        "-read_intervals"@,
        "%+#1"@,
        "-of"@,
        "default"@,
        "-i"@,
        input,
    ]
}

/// The arguments with which the prober reports on the chapters of `input`.
pub open spec fn chapter_probe(input: Seq<char>) -> Seq<Seq<char>> {
    seq!["-v"@, "error"@, "-show_chapters"@, "-of"@, "default"@, "-i"@, input]
}

/// The arguments of the prober for the streams of `input`.
pub fn stream_probe_arguments(input: &str) -> (arguments: Vec<String>)
    ensures
        texts(arguments@) == stream_probe(input@),
{
    let mut arguments: Vec<String> = Vec::new();
    arguments.push(String::from_str("-v"));
    arguments.push(String::from_str("error"));
    arguments.push(String::from_str("-select_streams"));
    arguments.push(String::from_str("v:0"));
    arguments.push(String::from_str("-show_streams"));
    arguments.push(String::from_str("-show_frames"));
    arguments.push(String::from_str("-read_intervals"));
    arguments.push(String::from_str("%+#1"));
    arguments.push(String::from_str("-of"));
    arguments.push(String::from_str("default"));
    arguments.push(String::from_str("-i"));
    arguments.push(String::from_str(input));
    assert(texts(arguments@) =~= stream_probe(input@));
    arguments
}

/// The arguments of the prober for the chapters of `input`.
pub fn chapter_probe_arguments(input: &str) -> (arguments: Vec<String>)
    ensures
        texts(arguments@) == chapter_probe(input@),
{
    let mut arguments: Vec<String> = Vec::new();
    arguments.push(String::from_str("-v"));
    arguments.push(String::from_str("error"));
    arguments.push(String::from_str("-show_chapters"));
    arguments.push(String::from_str("-of"));
    arguments.push(String::from_str("default"));
    arguments.push(String::from_str("-i"));
    arguments.push(String::from_str(input));
    assert(texts(arguments@) =~= chapter_probe(input@));
    arguments
}

/// Why no metadata could be read.
#[derive(Clone, Copy, Debug, PartialEq, Eq, Structural)]
pub enum ExtractError {
    /// The prober failed, or what it printed breaks off inside a stream.
    ProbeFailed,
    /// The prober found no video stream.
    NoStreams,
}

/// What a scan of a report for its video stream ends in.
pub enum Found {
    /// A stream section starts and never ends.
    Unfinished,
    /// No stream section is one of a video stream.
    NoVideo,
    /// The lines of the first video stream's section.
    Video(Seq<Seq<char>>),
}

/// The line that starts a stream section.
pub open spec fn stream_open() -> Seq<char> {
    "[STREAM]"@
}

/// The line that ends a stream section.
pub open spec fn stream_close() -> Seq<char> {
    "[/STREAM]"@
}

/// The line by which a stream section says that its stream is video.
pub open spec fn video_mark() -> Seq<char> {
    "codec_type=video"@
}

/// The line that starts a chapter section.
pub open spec fn chapter_open() -> Seq<char> {
    "[CHAPTER]"@
}

/// The line that ends a chapter section.
pub open spec fn chapter_close() -> Seq<char> {
    "[/CHAPTER]"@
}

/// The value of the property `key` among `body`: what follows `key=` on the
/// first line that starts so.
pub open spec fn tag(body: Seq<Seq<char>>, key: Seq<char>) -> Option<Seq<char>>
    decreases body.len(),
{
    if body.len() == 0 {
        None
    } else if starts_with(body[0], key.push('=')) {
        Some(body[0].skip(key.len() as int + 1))
    } else {
        tag(body.drop_first(), key)
    }
}

/// The first video stream of a report. A stream section runs from a line
/// that opens one to the next line that closes one; it is a video stream's
/// where it holds the line that says so.
pub open spec fn video_stream(ls: Seq<Seq<char>>) -> Found
    decreases ls.len(),
{
    let open = first_index(ls, stream_open());
    if !(0 <= open < ls.len()) {
        Found::NoVideo
    } else {
        let rest = ls.skip(open + 1);
        let close = first_index(rest, stream_close());
        if !(0 <= close < rest.len()) {
            Found::Unfinished
        } else if rest.take(close).contains(video_mark()) {
            Found::Video(rest.take(close))
        } else {
            video_stream(rest.skip(close + 1))
        }
    }
}

/// Whether `s` is a ratio that can be held in ten-thousandths.
pub open spec fn reads_ratio(s: Seq<char>) -> bool {
    is_ratio(s) && ratio_numerator(s) <= u64::MAX && ratio_denominator(s) <= u64::MAX
        && ratio_ten_thousandths(s) <= u64::MAX
}

/// The key under which the prober prints `field`.
pub open spec fn probe_key(field: Field) -> Seq<char> {
    match field {
        Field::ColorSpace => "color_space"@,
        Field::ColorTransfer => "color_transfer"@,
        Field::ColorPrimaries => "color_primaries"@,
        Field::MinLuminance => "min_luminance"@,
        Field::MaxLuminance => "max_luminance"@,
        Field::MaxContentLight => "max_content"@,
        Field::MaxFrameAverageLight => "max_average"@,
    }
}

/// What the prober's text `s` says that `field` holds, where the text is
/// understood: a colour property by its common name, a luminance as a ratio
/// of two whole numbers, a light level as a whole number.
pub open spec fn understood(field: Field, s: Seq<char>) -> Option<Value> {
    match field {
        Field::ColorSpace | Field::ColorTransfer | Field::ColorPrimaries => read_back(
            Syntax::Plain,
            field,
            s,
        ),
        Field::MinLuminance | Field::MaxLuminance => if reads_ratio(s) {
            Some(Value::Luminance(Luminance { ten_thousandths: ratio_ten_thousandths(s) as u64 }))
        } else {
            None
        },
        Field::MaxContentLight | Field::MaxFrameAverageLight => if reads_number(s) {
            Some(Value::Light(number(s) as u64))
        } else {
            None
        },
    }
}

/// What the line `line` says that `field` holds: the line must start with
/// the field's key and an equals sign, and what follows must be understood.
pub open spec fn line_value(line: Seq<char>, field: Field) -> Option<Value> {
    if starts_with(line, probe_key(field).push('=')) {
        understood(field, line.skip(probe_key(field).len() as int + 1))
    } else {
        None
    }
}

/// What `body` says that `field` holds: what its first line says that
/// states the field in a way that is understood. A line whose value is not
/// understood counts as little as a line about something else, so a later
/// line that is understood is still read.
pub open spec fn field_value(body: Seq<Seq<char>>, field: Field) -> Option<Value>
    decreases body.len(),
{
    if body.len() == 0 {
        None
    } else if line_value(body[0], field) is Some {
        line_value(body[0], field)
    } else {
        field_value(body.drop_first(), field)
    }
}

/// The model that a report gives: the three colour properties from the
/// section of the video stream, `stream`; the mastering display luminance
/// and the light levels from the whole report, `all`, since the prober
/// attaches them to the stream or to its first frame, or to both. Each
/// field holds what the first line says that states it in a way that is
/// understood; a field that no line states so is absent.
pub open spec fn model_of(stream: Seq<Seq<char>>, all: Seq<Seq<char>>) -> Metadata {
    Metadata {
        color_space: match field_value(stream, Field::ColorSpace) {
            Some(Value::Space(v)) => Some(v),
            _ => None,
        },
        color_transfer: match field_value(stream, Field::ColorTransfer) {
            Some(Value::Transfer(v)) => Some(v),
            _ => None,
        },
        color_primaries: match field_value(stream, Field::ColorPrimaries) {
            Some(Value::Primaries(v)) => Some(v),
            _ => None,
        },
        mastering_display_min_luminance: match field_value(all, Field::MinLuminance) {
            Some(Value::Luminance(v)) => Some(v),
            _ => None,
        },
        mastering_display_max_luminance: match field_value(all, Field::MaxLuminance) {
            Some(Value::Luminance(v)) => Some(v),
            _ => None,
        },
        max_content_light_level: match field_value(all, Field::MaxContentLight) {
            Some(Value::Light(v)) => Some(v),
            _ => None,
        },
        max_frame_average_light_level: match field_value(all, Field::MaxFrameAverageLight) {
            Some(Value::Light(v)) => Some(v),
            _ => None,
        },
    }
}

/// The lines among which the model looks for `field`: the video stream's
/// section for a colour property, the whole report for a luminance or a
/// light level.
pub open spec fn lines_for(field: Field, stream: Seq<Seq<char>>, all: Seq<Seq<char>>) -> Seq<
    Seq<char>,
> {
    if field.is_enumerated() {
        stream
    } else {
        all
    }
}

/// What is understood for a field is of the field's kind.
pub proof fn field_value_is_of_its_kind(body: Seq<Seq<char>>, field: Field)
    ensures
        field_value(body, field) is Some ==> field.holds(field_value(body, field)->0),
    decreases body.len(),
{
    if body.len() != 0 && !(line_value(body[0], field) is Some) {
        field_value_is_of_its_kind(body.drop_first(), field);
    }
}

/// The model holds in each field exactly what the report says of it: the
/// value of the first line that states the field in a way that is
/// understood, and nothing where no line does.
pub proof fn model_holds_what_is_understood(
    stream: Seq<Seq<char>>,
    all: Seq<Seq<char>>,
    field: Field,
)
    ensures
        model_of(stream, all).value(field) == field_value(lines_for(field, stream, all), field),
{
    field_value_is_of_its_kind(lines_for(field, stream, all), field);
}

/// What reading the metadata of a probe gives: the probe must have
/// succeeded, and its report must hold a video stream's section, complete.
pub open spec fn parsed(succeeded: bool, report: Seq<char>) -> Result<Metadata, ExtractError> {
    if !succeeded {
        Err(ExtractError::ProbeFailed)
    } else {
        match video_stream(report_lines(report)) {
            Found::Unfinished => Err(ExtractError::ProbeFailed),
            Found::NoVideo => Err(ExtractError::NoStreams),
            Found::Video(stream) => Ok(model_of(stream, report_lines(report))),
        }
    }
}

/// Looks the property `key` up among `lines[from..to]`.
pub fn find_tag(lines: &Vec<Vec<char>>, from: usize, to: usize, key: &str) -> (r: Option<
    Vec<char>,
>)
    requires
        from <= to <= lines@.len(),
    ensures
        r is Some <==> tag(views(lines@).subrange(from as int, to as int), key@) is Some,
        r is Some ==> r->0@ == tag(views(lines@).subrange(from as int, to as int), key@)->0,
{
    let mut prefix = chars_of(key);
    prefix.push('=');
    let ghost part = views(lines@).subrange(from as int, to as int);
    let mut i: usize = from;
    assert(part.skip(0) =~= part);
    while i < to
        invariant
            from <= i <= to,
            to <= lines@.len(),
            prefix@ == key@.push('='),
            part == views(lines@).subrange(from as int, to as int),
            tag(part, key@) == tag(part.skip(i - from), key@),
        decreases to - i,
    {
        let line = &lines[i];
        let ghost here = part.skip(i - from);
        assert(here[0] == line@);
        assert(here.drop_first() =~= part.skip(i + 1 - from));
        if has_prefix(line.as_slice(), prefix.as_slice()) {
            let value = vstd::slice::slice_to_vec(
                vstd::slice::slice_subrange(line.as_slice(), prefix.len(), line.len()),
            );
            assert(value@ =~= line@.skip(key@.len() as int + 1));
            return Some(value);
        }
        i = i + 1;
    }
    None
}

/// The key under which the prober prints `field`.
pub fn probe_key_text(field: Field) -> (t: &'static str)
    ensures
        t@ == probe_key(field),
{
    match field {
        Field::ColorSpace => "color_space",
        Field::ColorTransfer => "color_transfer",
        Field::ColorPrimaries => "color_primaries",
        Field::MinLuminance => "min_luminance",
        Field::MaxLuminance => "max_luminance",
        Field::MaxContentLight => "max_content",
        Field::MaxFrameAverageLight => "max_average",
    }
}

/// Reads what the prober's text `s` says that `field` holds.
pub fn read_probe_value(field: Field, s: &[char]) -> (r: Option<Value>)
    ensures
        r == understood(field, s@),
{
    match field {
        Field::ColorSpace | Field::ColorTransfer | Field::ColorPrimaries => read_value(
            Syntax::Plain,
            field,
            s,
        ),
        Field::MinLuminance | Field::MaxLuminance => match parse_ratio(s) {
            Some(n) => Some(Value::Luminance(Luminance { ten_thousandths: n })),
            None => None,
        },
        Field::MaxContentLight | Field::MaxFrameAverageLight => match parse_number(s) {
            Some(n) => Some(Value::Light(n)),
            None => None,
        },
    }
}

/// Reads what the lines `lines[from..to]` say that `field` holds.
pub fn read_field(lines: &Vec<Vec<char>>, from: usize, to: usize, field: Field) -> (r: Option<
    Value,
>)
    requires
        from <= to <= lines@.len(),
    ensures
        r == field_value(views(lines@).subrange(from as int, to as int), field),
{
    let mut prefix = chars_of(probe_key_text(field));
    prefix.push('=');
    let ghost part = views(lines@).subrange(from as int, to as int);
    let mut i: usize = from;
    assert(part.skip(0) =~= part);
    while i < to
        invariant
            from <= i <= to,
            to <= lines@.len(),
            prefix@ == probe_key(field).push('='),
            part == views(lines@).subrange(from as int, to as int),
            field_value(part, field) == field_value(part.skip(i - from), field),
        decreases to - i,
    {
        let line = &lines[i];
        let ghost here = part.skip(i - from);
        assert(here[0] == line@);
        assert(here.drop_first() =~= part.skip(i + 1 - from));
        if has_prefix(line.as_slice(), prefix.as_slice()) {
            let text = vstd::slice::slice_subrange(line.as_slice(), prefix.len(), line.len());
            assert(text@ =~= line@.skip(probe_key(field).len() as int + 1));
            let value = read_probe_value(field, text);
            if value.is_some() {
                return value;
            }
        }
        i = i + 1;
    }
    None
}

fn read_model(lines: &Vec<Vec<char>>, from: usize, to: usize) -> (m: Metadata)
    requires
        from <= to <= lines@.len(),
    ensures
        m == model_of(views(lines@).subrange(from as int, to as int), views(lines@)),
{
    let n = lines.len();
    assert(views(lines@).subrange(0, n as int) =~= views(lines@));
    Metadata {
        color_space: match read_field(lines, from, to, Field::ColorSpace) {
            Some(Value::Space(v)) => Some(v),
            _ => None,
        },
        color_transfer: match read_field(lines, from, to, Field::ColorTransfer) {
            Some(Value::Transfer(v)) => Some(v),
            _ => None,
        },
        color_primaries: match read_field(lines, from, to, Field::ColorPrimaries) {
            Some(Value::Primaries(v)) => Some(v),
            _ => None,
        },
        mastering_display_min_luminance: match read_field(lines, 0, n, Field::MinLuminance) {
            Some(Value::Luminance(v)) => Some(v),
            _ => None,
        },
        mastering_display_max_luminance: match read_field(lines, 0, n, Field::MaxLuminance) {
            Some(Value::Luminance(v)) => Some(v),
            _ => None,
        },
        max_content_light_level: match read_field(lines, 0, n, Field::MaxContentLight) {
            Some(Value::Light(v)) => Some(v),
            _ => None,
        },
        max_frame_average_light_level: match read_field(
            lines,
            0,
            n,
            Field::MaxFrameAverageLight,
        ) {
            Some(Value::Light(v)) => Some(v),
            _ => None,
        },
    }
}

impl Metadata {
    /// Reads the metadata of a file from what the prober did with it:
    /// whether it succeeded, and what it printed about the file's streams.
    ///
    /// Fails with `ProbeFailed` where the prober failed or its report
    /// breaks off inside a stream, with `NoStreams` where the report holds
    /// no video stream. Whatever else the report holds, chapters or none,
    /// plays no part, and a line whose value is not understood is passed
    /// over: it neither fails the reading nor hides a later line.
    pub fn parse(succeeded: bool, report: &str) -> (r: Result<Metadata, ExtractError>)
        ensures
            r == parsed(succeeded, report@),
    {
        if !succeeded {
            return Err(ExtractError::ProbeFailed);
        }
        let lines = split_report(report);
        let open_mark = chars_of("[STREAM]");
        let close_mark = chars_of("[/STREAM]");
        let video = chars_of("codec_type=video");
        let n = lines.len();
        let ghost ls = views(lines@);
        let mut pos: usize = 0;
        assert(ls.skip(0) =~= ls);
        loop
            invariant
                succeeded,
                pos <= n,
                n == lines@.len(),
                ls == views(lines@),
                ls == report_lines(report@),
                open_mark@ == stream_open(),
                close_mark@ == stream_close(),
                video@ == video_mark(),
                video_stream(ls) == video_stream(ls.skip(pos as int)),
            decreases n - pos,
        {
            let ghost here = ls.skip(pos as int);
            let open = find_line(&lines, pos, n, open_mark.as_slice());
            assert(ls.subrange(pos as int, n as int) =~= here);
            if open >= n {
                return Err(ExtractError::NoStreams);
            }
            let ghost rest = here.skip(open - pos + 1);
            let close = find_line(&lines, open + 1, n, close_mark.as_slice());
            assert(ls.subrange(open + 1, n as int) =~= rest);
            if close >= n {
                return Err(ExtractError::ProbeFailed);
            }
            let ghost body = rest.take(close - open - 1);
            let seen = find_line(&lines, open + 1, close, video.as_slice());
            proof {
                assert(ls.subrange(open + 1, close as int) =~= body);
                first_index_contains(body, video_mark());
                assert(rest.skip(close - open) =~= ls.skip(close + 1));
            }
            if seen < close {
                return Ok(read_model(&lines, open + 1, close));
            }
            pos = close + 1;
        }
    }
}

/// The text of an optional property, empty where it is missing.
pub open spec fn text_or_empty(value: Option<Seq<char>>) -> Seq<char> {
    match value {
        Some(t) => t,
        None => Seq::empty(),
    }
}

/// The start that the line `line` gives to a chapter, in milliseconds: the
/// line must hold the property `start_time`, and its value must be seconds
/// with a decimal fraction, which is cut to whole milliseconds.
pub open spec fn line_start(line: Seq<char>) -> Option<nat> {
    let value = line.skip("start_time"@.len() as int + 1);
    if starts_with(line, "start_time"@.push('=')) && is_fixed(value) && fixed_value(value, 3)
        <= u64::MAX {
        Some(fixed_value(value, 3))
    } else {
        None
    }
}

/// The start of the chapter that `body` describes: what its first line
/// says that states the start in a way that is understood.
pub open spec fn start_of(body: Seq<Seq<char>>) -> Option<nat>
    decreases body.len(),
{
    if body.len() == 0 {
        None
    } else if line_start(body[0]) is Some {
        line_start(body[0])
    } else {
        start_of(body.drop_first())
    }
}

/// The chapter that a chapter section describes: its start from the
/// property `start_time`; its title from the property `TAG:title`, empty
/// where there is none. A section without a start that is understood
/// describes none.
pub open spec fn chapter_of(body: Seq<Seq<char>>) -> Option<ChapterView> {
    match start_of(body) {
        Some(start_ms) => Some(
            ChapterView { start_ms, title: text_or_empty(tag(body, "TAG:title"@)) },
        ),
        None => None,
    }
}

/// The chapter of a section as a list: one chapter or none.
pub open spec fn chapter_list(body: Seq<Seq<char>>) -> Seq<ChapterView> {
    match chapter_of(body) {
        Some(c) => seq![c],
        None => Seq::empty(),
    }
}

/// The chapters of a report, in the order of their sections. A chapter
/// section runs from a line that opens one to the next line that closes
/// one; one that never ends is dropped.
pub open spec fn chapters_of(ls: Seq<Seq<char>>) -> Seq<ChapterView>
    decreases ls.len(),
{
    let open = first_index(ls, chapter_open());
    if !(0 <= open < ls.len()) {
        Seq::empty()
    } else {
        let rest = ls.skip(open + 1);
        let close = first_index(rest, chapter_close());
        if !(0 <= close < rest.len()) {
            Seq::empty()
        } else {
            chapter_list(rest.take(close)) + chapters_of(rest.skip(close + 1))
        }
    }
}

/// What extracting the chapters of a probe gives: the chapters of the
/// report, or `None` where the probe failed or the report holds no chapter.
pub open spec fn extracted(succeeded: bool, report: Seq<char>) -> Option<Seq<ChapterView>> {
    if succeeded && chapters_of(report_lines(report)).len() > 0 {
        Some(chapters_of(report_lines(report)))
    } else {
        None
    }
}

/// Reads the start of the chapter that the lines `lines[from..to]`
/// describe, in milliseconds.
pub fn read_start(lines: &Vec<Vec<char>>, from: usize, to: usize) -> (r: Option<u64>)
    requires
        from <= to <= lines@.len(),
    ensures
        r is Some <==> start_of(views(lines@).subrange(from as int, to as int)) is Some,
        r is Some ==> r->0 == start_of(views(lines@).subrange(from as int, to as int))->0,
{
    let mut prefix = chars_of("start_time");
    prefix.push('=');
    let ghost part = views(lines@).subrange(from as int, to as int);
    let mut i: usize = from;
    assert(part.skip(0) =~= part);
    while i < to
        invariant
            from <= i <= to,
            to <= lines@.len(),
            prefix@ == "start_time"@.push('='),
            part == views(lines@).subrange(from as int, to as int),
            start_of(part) == start_of(part.skip(i - from)),
        decreases to - i,
    {
        let line = &lines[i];
        let ghost here = part.skip(i - from);
        assert(here[0] == line@);
        assert(here.drop_first() =~= part.skip(i + 1 - from));
        if has_prefix(line.as_slice(), prefix.as_slice()) {
            let text = vstd::slice::slice_subrange(line.as_slice(), prefix.len(), line.len());
            assert(text@ =~= line@.skip("start_time"@.len() as int + 1));
            let value = parse_fixed(text, 3);
            if value.is_some() {
                return value;
            }
        }
        i = i + 1;
    }
    None
}

fn read_chapter(lines: &Vec<Vec<char>>, from: usize, to: usize) -> (r: Option<Chapter>)
    requires
        from <= to <= lines@.len(),
    ensures
        r is Some <==> chapter_of(views(lines@).subrange(from as int, to as int)) is Some,
        r is Some ==> r->0@ == chapter_of(views(lines@).subrange(from as int, to as int))->0,
{
    let start_ms = match read_start(lines, from, to) {
        Some(ms) => ms,
        None => {
            return None;
        },
    };
    let title = match find_tag(lines, from, to, "TAG:title") {
        Some(t) => string_of(t.as_slice()),
        None => String::new(),
    };
    Some(Chapter { start_ms, title })
}

/// Reads the chapters of a file from what the prober did with it: whether
/// it succeeded, and what it printed about the file's chapters.
///
/// A failed probe and a file without chapters both give `None`, never an
/// error: without chapters the copy goes on.
pub fn extract_chapters(succeeded: bool, report: &str) -> (r: Option<Vec<Chapter>>)
    ensures
        r is Some <==> extracted(succeeded, report@) is Some,
        r is Some ==> chapter_views(r->0@) == extracted(succeeded, report@)->0,
        r is None <==> !succeeded || chapters_of(report_lines(report@)).len() == 0,
{
    if !succeeded {
        return None;
    }
    let lines = split_report(report);
    let open_mark = chars_of("[CHAPTER]");
    let close_mark = chars_of("[/CHAPTER]");
    let n = lines.len();
    let ghost ls = views(lines@);
    let mut out: Vec<Chapter> = Vec::new();
    let mut pos: usize = 0;
    let mut scanning = true;
    assert(ls.skip(0) =~= ls);
    assert(chapter_views(out@) =~= Seq::<ChapterView>::empty());
    while scanning
        invariant
            pos <= n,
            n == lines@.len(),
            ls == views(lines@),
            open_mark@ == chapter_open(),
            close_mark@ == chapter_close(),
            scanning ==> chapters_of(ls) == chapter_views(out@) + chapters_of(ls.skip(pos as int)),
            !scanning ==> chapters_of(ls) == chapter_views(out@),
        decreases n - pos + if scanning { 1int } else { 0int },
    {
        let ghost here = ls.skip(pos as int);
        let ghost before = chapter_views(out@);
        let open = find_line(&lines, pos, n, open_mark.as_slice());
        assert(ls.subrange(pos as int, n as int) =~= here);
        if open >= n {
            scanning = false;
            assert(before + Seq::<ChapterView>::empty() =~= before);
        } else {
            let ghost rest = here.skip(open - pos + 1);
            let close = find_line(&lines, open + 1, n, close_mark.as_slice());
            assert(ls.subrange(open + 1, n as int) =~= rest);
            if close >= n {
                scanning = false;
                assert(before + Seq::<ChapterView>::empty() =~= before);
            } else {
                let ghost body = rest.take(close - open - 1);
                assert(ls.subrange(open + 1, close as int) =~= body);
                assert(rest.skip(close - open) =~= ls.skip(close + 1));
                match read_chapter(&lines, open + 1, close) {
                    Some(c) => {
                        out.push(c);
                        assert(chapter_views(out@) =~= before + chapter_list(body));
                    },
                    None => {
                        assert(chapter_views(out@) =~= before + chapter_list(body));
                    },
                }
                assert(before + (chapter_list(body) + chapters_of(ls.skip(close + 1)))
                    =~= chapter_views(out@) + chapters_of(ls.skip(close + 1)));
                pos = close + 1;
            }
        }
    }
    assert(chapter_views(out@).len() == out@.len());
    if out.len() == 0 {
        None
    } else {
        Some(out)
    }
}

/// Reading the metadata does not ask for chapters: a report whose video
/// stream is complete and which lists no chapter is read.
pub proof fn parse_needs_no_chapters(report: Seq<char>)
    requires
        video_stream(report_lines(report)) is Video,
        chapters_of(report_lines(report)).len() == 0,
    ensures
        parsed(true, report) is Ok,
{
}

/// A file without chapters has no chapter list, whatever else the probe
/// printed and whether or not it succeeded.
pub proof fn no_chapters_extract_none(succeeded: bool, report: Seq<char>)
    requires
        chapters_of(report_lines(report)).len() == 0,
    ensures
        extracted(succeeded, report) is None,
{
}

} // verus!
