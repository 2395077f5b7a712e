use hdrcopier::mapper::{Field, Luminance, Value};
use hdrcopier::metadata::Metadata;
use hdrcopier::parse::{
    extract_chapters, find_tag, probe_key_text, read_field, read_probe_value, read_start,
    ExtractError,
};
use hdrcopier::text::split_report;
use hdrcopier::values::{ColorPrimaries, ColorSpace, ColorTransfer};

const HDR_REPORT: &str = "[FRAME]
media_type=video
color_space=bt2020nc
[SIDE_DATA]
side_data_type=Mastering display metadata
red_x=34000/50000
red_y=16000/50000
min_luminance=50/10000
max_luminance=10000000/10000
[/SIDE_DATA]
[SIDE_DATA]
side_data_type=Content light level metadata
max_content=1000
max_average=400
[/SIDE_DATA]
[/FRAME]
[STREAM]
index=1
codec_type=audio
color_space=bt709
[/STREAM]
[STREAM]
index=0
codec_name=hevc
codec_type=video
color_range=tv
color_space=bt2020nc
color_transfer=smpte2084
color_primaries=bt2020
TAG:title=Main=Feature
[/STREAM]
[STREAM]
index=2
codec_type=video
color_space=bt709
[/STREAM]
";

const CHAPTER_REPORT: &str = "[CHAPTER]
id=0
time_base=1/1000
start=0
start_time=0.000000
end=61500
end_time=61.500000
TAG:title=Opening
[/CHAPTER]
[CHAPTER]
id=1
time_base=1/1000
start=61500
start_time=61.500000
end=3723004
end_time=3723.004000
TAG:title=Première partie = début
[/CHAPTER]
[CHAPTER]
id=2
start_time=3723.004999
[/CHAPTER]
";

#[test]
fn a_full_report_gives_every_field() {
    let m = Metadata::parse(true, HDR_REPORT).unwrap();
    assert_eq!(
        m,
        Metadata {
            color_space: Some(ColorSpace::Bt2020Ncl),
            color_transfer: Some(ColorTransfer::Pq),
            color_primaries: Some(ColorPrimaries::Bt2020),
            mastering_display_min_luminance: Some(Luminance { ten_thousandths: 50 }),
            mastering_display_max_luminance: Some(Luminance { ten_thousandths: 10_000_000 }),
            max_content_light_level: Some(1000),
            max_frame_average_light_level: Some(400),
        }
    );
}

#[test]
fn a_report_with_carriage_returns_reads_the_same() {
    let windows = HDR_REPORT.replace('\n', "\r\n");
    assert_eq!(Metadata::parse(true, &windows), Metadata::parse(true, HDR_REPORT));
}

#[test]
fn a_failed_probe_gives_no_metadata() {
    assert_eq!(Metadata::parse(false, HDR_REPORT), Err(ExtractError::ProbeFailed));
    assert_eq!(Metadata::parse(false, ""), Err(ExtractError::ProbeFailed));
}

#[test]
fn a_report_that_breaks_off_inside_a_stream_is_a_failed_probe() {
    let report = "[STREAM]\ncodec_type=video\ncolor_space=bt709\n";
    assert_eq!(Metadata::parse(true, report), Err(ExtractError::ProbeFailed));
    let report = "[STREAM]\ncodec_type=audio\n[/STREAM]\n[STREAM]\ncodec_type=video\n";
    assert_eq!(Metadata::parse(true, report), Err(ExtractError::ProbeFailed));
}

#[test]
fn a_report_without_a_video_stream_has_no_streams() {
    assert_eq!(Metadata::parse(true, ""), Err(ExtractError::NoStreams));
    assert_eq!(Metadata::parse(true, "\n\n"), Err(ExtractError::NoStreams));
    let report = "[STREAM]\ncodec_type=audio\n[/STREAM]\n[STREAM]\ncodec_type=subtitle\n[/STREAM]\n";
    assert_eq!(Metadata::parse(true, report), Err(ExtractError::NoStreams));
    assert_eq!(Metadata::parse(true, "codec_type=video\n"), Err(ExtractError::NoStreams));
    assert_eq!(Metadata::parse(true, CHAPTER_REPORT), Err(ExtractError::NoStreams));
}

#[test]
fn a_video_stream_without_tags_gives_an_empty_model() {
    let report = "[STREAM]\ncodec_type=video\n[/STREAM]\n";
    assert_eq!(Metadata::parse(true, report), Ok(Metadata::new()));
    let report = "[STREAM]\ncodec_type=video\n[/STREAM]";
    assert_eq!(Metadata::parse(true, report), Ok(Metadata::new()));
}

#[test]
fn values_that_are_not_understood_leave_their_fields_absent() {
    let report = "[STREAM]
codec_type=video
color_space=bt2020nc
color_transfer=something-new
color_primaries=
min_luminance=0.005
max_luminance=10000000/0
max_content=-5
max_average=99999999999999999999999
this line is no property
[/STREAM]
";
    let m = Metadata::parse(true, report).unwrap();
    let mut expected = Metadata::new();
    expected.color_space = Some(ColorSpace::Bt2020Ncl);
    assert_eq!(m, expected);
}

#[test]
fn unspecified_is_read_as_a_value() {
    let report = "[STREAM]\ncodec_type=video\ncolor_transfer=unknown\nmax_content=0\n[/STREAM]\n";
    let m = Metadata::parse(true, report).unwrap();
    assert_eq!(m.color_transfer, Some(ColorTransfer::Unspecified));
    assert_eq!(m.max_content_light_level, Some(0));
    assert_eq!(m.color_space, None);
    assert_eq!(m.max_frame_average_light_level, None);
}

#[test]
fn a_line_that_is_not_understood_does_not_hide_a_later_one() {
    let report = "[FRAME]
[SIDE_DATA]
min_luminance=N/A
max_luminance=
max_content=unknown
max_average=-1
[/SIDE_DATA]
[/FRAME]
[STREAM]
codec_type=video
color_space=something-new
color_space=bt2020nc
color_transfer=
color_transfer=smpte2084
color_transfer=bt709
color_primaries=reserved
[SIDE_DATA]
min_luminance=50/10000
max_luminance=10000000/10000
max_content=1000
max_average=400
max_average=500
[/SIDE_DATA]
[/STREAM]
";
    let m = Metadata::parse(true, report).unwrap();
    assert_eq!(
        m,
        Metadata {
            color_space: Some(ColorSpace::Bt2020Ncl),
            color_transfer: Some(ColorTransfer::Pq),
            color_primaries: None,
            mastering_display_min_luminance: Some(Luminance { ten_thousandths: 50 }),
            mastering_display_max_luminance: Some(Luminance { ten_thousandths: 10_000_000 }),
            max_content_light_level: Some(1000),
            max_frame_average_light_level: Some(400),
        }
    );
}

#[test]
fn fields_are_read_line_by_line() {
    let lines = split_report("max_content=x\nmax_content=7\nmax_content=8\ncolor_space=bt709");
    assert_eq!(read_field(&lines, 0, lines.len(), Field::MaxContentLight), Some(Value::Light(7)));
    assert_eq!(read_field(&lines, 2, lines.len(), Field::MaxContentLight), Some(Value::Light(8)));
    assert_eq!(read_field(&lines, 0, 1, Field::MaxContentLight), None);
    assert_eq!(read_field(&lines, 0, lines.len(), Field::MaxFrameAverageLight), None);
    assert_eq!(
        read_field(&lines, 0, lines.len(), Field::ColorSpace),
        Some(Value::Space(ColorSpace::Bt709))
    );
    let chars = |s: &str| s.chars().collect::<Vec<char>>();
    assert_eq!(read_probe_value(Field::MinLuminance, &chars("1/10000")),
        Some(Value::Luminance(Luminance { ten_thousandths: 1 })));
    assert_eq!(read_probe_value(Field::MinLuminance, &chars("0.0001")), None);
    assert_eq!(read_probe_value(Field::MaxContentLight, &chars("1000")), Some(Value::Light(1000)));
    assert_eq!(read_probe_value(Field::MaxContentLight, &chars("1000/1")), None);
    assert_eq!(
        read_probe_value(Field::ColorTransfer, &chars("arib-std-b67")),
        Some(Value::Transfer(ColorTransfer::Hlg))
    );
    assert_eq!(read_probe_value(Field::ColorTransfer, &chars("HLG")), None);
    assert_eq!(probe_key_text(Field::MaxFrameAverageLight), "max_average");
    assert_eq!(probe_key_text(Field::ColorPrimaries), "color_primaries");
}

#[test]
fn the_first_line_of_a_property_counts() {
    let report = "[STREAM]\ncodec_type=video\ncolor_space=bt709\ncolor_space=bt2020nc\n[/STREAM]\n";
    assert_eq!(Metadata::parse(true, report).unwrap().color_space, Some(ColorSpace::Bt709));
}

#[test]
fn the_first_video_stream_counts() {
    let report = "[STREAM]\ncodec_type=video\ncolor_space=bt709\n[/STREAM]\n\
                  [STREAM]\ncodec_type=video\ncolor_space=bt2020nc\ncolor_transfer=smpte2084\n[/STREAM]\n";
    let m = Metadata::parse(true, report).unwrap();
    assert_eq!(m.color_space, Some(ColorSpace::Bt709));
    assert_eq!(m.color_transfer, None);
}

#[test]
fn metadata_is_read_whether_or_not_chapters_are_listed() {
    let without = Metadata::parse(true, HDR_REPORT).unwrap();
    let with = Metadata::parse(true, &format!("{}{}", CHAPTER_REPORT, HDR_REPORT)).unwrap();
    assert_eq!(with, without);
    assert!(extract_chapters(true, HDR_REPORT).is_none());
}

#[test]
fn tags_are_found_by_their_key() {
    let lines = split_report("a=1\nab=2\nb=\na=3\nc");
    let value = |key: &str| find_tag(&lines, 0, lines.len(), key).map(|v| v.into_iter().collect::<String>());
    assert_eq!(value("a"), Some("1".to_string()));
    assert_eq!(value("ab"), Some("2".to_string()));
    assert_eq!(value("b"), Some(String::new()));
    assert_eq!(value("c"), None);
    assert_eq!(value(""), None);
    let later = find_tag(&lines, 1, lines.len(), "a").map(|v| v.into_iter().collect::<String>());
    assert_eq!(later, Some("3".to_string()));
    assert_eq!(find_tag(&lines, 1, 3, "a"), None);
}

#[test]
fn chapters_are_read_in_their_order() {
    let chapters = extract_chapters(true, CHAPTER_REPORT).unwrap();
    assert_eq!(chapters.len(), 3);
    assert_eq!(chapters[0].start_ms, 0);
    assert_eq!(chapters[0].title, "Opening");
    assert_eq!(chapters[1].start_ms, 61_500);
    assert_eq!(chapters[1].title, "Première partie = début");
    assert_eq!(chapters[2].start_ms, 3_723_004);
    assert_eq!(chapters[2].title, "");
}

#[test]
fn no_chapters_is_none_and_no_error() {
    assert!(extract_chapters(true, "").is_none());
    assert!(extract_chapters(true, "[STREAM]\ncodec_type=video\n[/STREAM]\n").is_none());
    assert!(extract_chapters(true, HDR_REPORT).is_none());
}

#[test]
fn a_failed_chapter_probe_is_none() {
    assert!(extract_chapters(false, CHAPTER_REPORT).is_none());
    assert!(extract_chapters(false, "").is_none());
}

#[test]
fn a_chapter_takes_the_first_start_that_is_understood() {
    let report = "[CHAPTER]\nstart_time=N/A\nstart_time=2.5\nstart_time=9.0\nTAG:title=Kept\n[/CHAPTER]\n";
    let chapters = extract_chapters(true, report).unwrap();
    assert_eq!(chapters.len(), 1);
    assert_eq!(chapters[0].start_ms, 2500);
    assert_eq!(chapters[0].title, "Kept");
    let lines = split_report("start_time=\nstart_time=1.0005\nstart_time=7");
    assert_eq!(read_start(&lines, 0, lines.len()), Some(1000));
    assert_eq!(read_start(&lines, 2, lines.len()), Some(7000));
    assert_eq!(read_start(&lines, 0, 1), None);
}

#[test]
fn a_chapter_without_a_start_is_skipped() {
    let report = "[CHAPTER]\nTAG:title=Lost\n[/CHAPTER]\n\
                  [CHAPTER]\nstart_time=-1.000000\nTAG:title=Before\n[/CHAPTER]\n\
                  [CHAPTER]\nstart_time=2.5\nTAG:title=Kept\n[/CHAPTER]\n\
                  [CHAPTER]\nstart_time=9.0\nTAG:title=Cut off\n";
    let chapters = extract_chapters(true, report).unwrap();
    assert_eq!(chapters.len(), 1);
    assert_eq!(chapters[0].start_ms, 2500);
    assert_eq!(chapters[0].title, "Kept");
    let only_bad = "[CHAPTER]\nTAG:title=Lost\n[/CHAPTER]\n";
    assert!(extract_chapters(true, only_bad).is_none());
}
