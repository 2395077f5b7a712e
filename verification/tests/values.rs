use hdrcopier::mapper::{flag_name, label_text, light_pair_text, read_value, Field, Luminance, Value};
use hdrcopier::numbers::{append_decimal, append_fixed4, parse_fixed, parse_number, parse_ratio};
use hdrcopier::text::{
    chars_of, find_char, find_line, has_prefix, join_spaced, same_chars, same_text, split_lines,
    split_report, string_of,
};
use hdrcopier::values::{ColorPrimaries, ColorSpace, ColorTransfer, Syntax};

fn chars(s: &str) -> Vec<char> {
    s.chars().collect()
}

#[test]
fn numbers_are_read_from_digits_only() {
    assert_eq!(parse_number(&chars("0")), Some(0));
    assert_eq!(parse_number(&chars("1000")), Some(1000));
    assert_eq!(parse_number(&chars("007")), Some(7));
    assert_eq!(parse_number(&chars("18446744073709551615")), Some(u64::MAX));
    assert_eq!(parse_number(&chars("18446744073709551616")), None);
    assert_eq!(parse_number(&chars("")), None);
    assert_eq!(parse_number(&chars("12a")), None);
    assert_eq!(parse_number(&chars("-1")), None);
    assert_eq!(parse_number(&chars(" 1")), None);
}

#[test]
fn fractions_are_read_at_the_scale_asked_for() {
    assert_eq!(parse_fixed(&chars("1000"), 4), Some(10_000_000));
    assert_eq!(parse_fixed(&chars("0.005"), 4), Some(50));
    assert_eq!(parse_fixed(&chars("0.0001"), 4), Some(1));
    assert_eq!(parse_fixed(&chars("0.00019"), 4), Some(1));
    assert_eq!(parse_fixed(&chars("12.345000"), 3), Some(12_345));
    assert_eq!(parse_fixed(&chars("12.3"), 3), Some(12_300));
    assert_eq!(parse_fixed(&chars("7"), 0), Some(7));
    assert_eq!(parse_fixed(&chars("7.9"), 0), Some(7));
    assert_eq!(parse_fixed(&chars(".5"), 4), None);
    assert_eq!(parse_fixed(&chars("5."), 4), None);
    assert_eq!(parse_fixed(&chars("1.2.3"), 4), None);
    assert_eq!(parse_fixed(&chars("-0.5"), 4), None);
    assert_eq!(parse_fixed(&chars(""), 4), None);
    assert_eq!(parse_fixed(&chars("1844674407370955.1615"), 4), Some(u64::MAX));
    assert_eq!(parse_fixed(&chars("1844674407370955.1616"), 4), None);
}

#[test]
fn numbers_are_written_in_their_shortest_form() {
    let write = |n: u64| {
        let mut s = String::from(">");
        append_decimal(&mut s, n);
        s
    };
    assert_eq!(write(0), ">0");
    assert_eq!(write(7), ">7");
    assert_eq!(write(10), ">10");
    assert_eq!(write(1000), ">1000");
    assert_eq!(write(u64::MAX), ">18446744073709551615");
    let fixed = |n: u64| {
        let mut s = String::from(">");
        append_fixed4(&mut s, n);
        s
    };
    assert_eq!(fixed(0), ">0");
    assert_eq!(fixed(1), ">0.0001");
    assert_eq!(fixed(10), ">0.001");
    assert_eq!(fixed(100), ">0.01");
    assert_eq!(fixed(1000), ">0.1");
    assert_eq!(fixed(10_000), ">1");
    assert_eq!(fixed(10_010), ">1.001");
    assert_eq!(fixed(123_456), ">12.3456");
}

#[test]
fn ratios_are_read_in_ten_thousandths() {
    assert_eq!(parse_ratio(&chars("10000000/10000")), Some(10_000_000));
    assert_eq!(parse_ratio(&chars("1/10000")), Some(1));
    assert_eq!(parse_ratio(&chars("50/10000")), Some(50));
    assert_eq!(parse_ratio(&chars("1000/1")), Some(10_000_000));
    assert_eq!(parse_ratio(&chars("1/3")), Some(3333));
    assert_eq!(parse_ratio(&chars("0/5")), Some(0));
    assert_eq!(parse_ratio(&chars("1/0")), None);
    assert_eq!(parse_ratio(&chars("1000")), None);
    assert_eq!(parse_ratio(&chars("/5")), None);
    assert_eq!(parse_ratio(&chars("5/")), None);
    assert_eq!(parse_ratio(&chars("1/2/3")), None);
    assert_eq!(parse_ratio(&chars("18446744073709551615/1")), None);
    assert_eq!(parse_ratio(&chars("18446744073709551615/10000")), Some(u64::MAX));
}

#[test]
fn characters_and_strings_convert_both_ways() {
    assert_eq!(chars_of("smpte2084"), chars("smpte2084"));
    assert_eq!(chars_of(""), Vec::<char>::new());
    assert_eq!(string_of(&chars("Chapitre né")), "Chapitre né");
    assert_eq!(string_of(&[]), "");
    assert!(same_text(&chars("bt709"), "bt709"));
    assert!(!same_text(&chars("bt709"), "bt70"));
    assert!(!same_text(&chars("bt709"), "bt708"));
    assert_eq!(find_char(&chars("a=b=c"), '='), 1);
    assert_eq!(find_char(&chars("abc"), '='), 3);
}

#[test]
fn lines_and_words_are_found_and_joined() {
    assert_eq!(split_lines(&chars("a\r\nb")), vec![chars("a\r"), chars("b")]);
    assert!(same_chars(&chars("ab"), &chars("ab")));
    assert!(!same_chars(&chars("ab"), &chars("abc")));
    assert!(has_prefix(&chars("color_space=bt709"), &chars("color_space=")));
    assert!(has_prefix(&chars("abc"), &chars("")));
    assert!(!has_prefix(&chars("ab"), &chars("abc")));
    assert!(!has_prefix(&chars("xbc"), &chars("ab")));
    let lines = split_report("x\n[STREAM]\ny\n[STREAM]\n");
    assert_eq!(find_line(&lines, 0, lines.len(), &chars("[STREAM]")), 1);
    assert_eq!(find_line(&lines, 2, lines.len(), &chars("[STREAM]")), 3);
    assert_eq!(find_line(&lines, 2, 3, &chars("[STREAM]")), 3);
    assert_eq!(find_line(&lines, 0, lines.len(), &chars("[FRAME]")), lines.len());
    let words = |w: &[&str]| join_spaced(&w.iter().map(|s| s.to_string()).collect());
    assert_eq!(words(&[]), "");
    assert_eq!(words(&["a"]), "a");
    assert_eq!(words(&["a", "", "b c"]), "a  b c");
}

#[test]
fn a_report_is_split_at_line_feeds() {
    let lines = split_report("a\r\nb\n\nc");
    assert_eq!(lines, vec![chars("a"), chars("b"), chars(""), chars("c")]);
    assert_eq!(split_report(""), vec![chars("")]);
    assert_eq!(split_report("x\n"), vec![chars("x"), chars("")]);
}

#[test]
fn code_points_follow_the_standard() {
    assert_eq!(ColorSpace::Rgb.code(), 0);
    assert_eq!(ColorSpace::Bt709.code(), 1);
    assert_eq!(ColorSpace::Unspecified.code(), 2);
    assert_eq!(ColorSpace::Bt2020Ncl.code(), 9);
    assert_eq!(ColorSpace::Ictcp.code(), 14);
    assert_eq!(ColorTransfer::Pq.code(), 16);
    assert_eq!(ColorTransfer::Hlg.code(), 18);
    assert_eq!(ColorTransfer::Srgb.code(), 13);
    assert_eq!(ColorPrimaries::Bt2020.code(), 9);
    assert_eq!(ColorPrimaries::Ebu3213.code(), 22);
    assert_eq!(ColorSpace::from_code(3), None);
    assert_eq!(ColorTransfer::from_code(0), None);
    assert_eq!(ColorTransfer::from_code(3), None);
    assert_eq!(ColorTransfer::from_code(19), None);
    assert_eq!(ColorPrimaries::from_code(13), None);
    assert_eq!(ColorPrimaries::from_code(22), Some(ColorPrimaries::Ebu3213));
}

#[test]
fn every_code_point_leads_back_to_its_value() {
    for c in 0..=255u8 {
        if let Some(v) = ColorSpace::from_code(c) {
            assert_eq!(v.code(), c);
        }
        if let Some(v) = ColorTransfer::from_code(c) {
            assert_eq!(v.code(), c);
        }
        if let Some(v) = ColorPrimaries::from_code(c) {
            assert_eq!(v.code(), c);
        }
    }
}

#[test]
fn values_have_their_names_in_each_syntax() {
    assert_eq!(ColorTransfer::Pq.text(Syntax::Plain).unwrap(), "smpte2084");
    assert_eq!(ColorTransfer::Pq.text(Syntax::X265).unwrap(), "smpte2084");
    assert_eq!(ColorTransfer::Pq.text(Syntax::Rav1e).unwrap(), "SMPTE2084");
    assert_eq!(ColorTransfer::Pq.text(Syntax::Mkvmerge).unwrap(), "0:16");
    assert_eq!(ColorTransfer::Hlg.text(Syntax::X265).unwrap(), "arib-std-b67");
    assert_eq!(ColorTransfer::Hlg.text(Syntax::Rav1e).unwrap(), "HLG");
    assert_eq!(ColorTransfer::Hlg.text(Syntax::Mkvmerge).unwrap(), "0:18");
    assert_eq!(ColorSpace::Bt2020Ncl.text(Syntax::X265).unwrap(), "bt2020nc");
    assert_eq!(ColorSpace::Bt2020Ncl.text(Syntax::Rav1e).unwrap(), "BT2020NCL");
    assert_eq!(ColorSpace::Bt2020Ncl.text(Syntax::Mkvmerge).unwrap(), "0:9");
    assert_eq!(ColorSpace::Rgb.text(Syntax::Mkvmerge).unwrap(), "0:0");
    assert_eq!(ColorSpace::Unspecified.text(Syntax::Plain).unwrap(), "unknown");
    assert_eq!(ColorPrimaries::Bt2020.text(Syntax::X265).unwrap(), "bt2020");
    assert_eq!(ColorPrimaries::Bt2020.text(Syntax::Rav1e).unwrap(), "BT2020");
    assert_eq!(ColorPrimaries::Smpte428.text(Syntax::Rav1e).unwrap(), "XYZ");
    assert_eq!(ColorPrimaries::Ebu3213.text(Syntax::Plain).unwrap(), "ebu3213");
    assert_eq!(ColorPrimaries::Ebu3213.text(Syntax::X265), None);
    assert_eq!(ColorPrimaries::Ebu3213.text(Syntax::Mkvmerge).unwrap(), "0:22");
    assert_eq!(ColorPrimaries::Bt709.common_name(), "bt709");
    assert_eq!(ColorPrimaries::Smpte170m.rav1e_name(), "BT601");
}

#[test]
fn every_written_value_reads_back() {
    let all = [Syntax::Plain, Syntax::X265, Syntax::Rav1e, Syntax::Mkvmerge];
    for c in 0..=255u8 {
        for syntax in all {
            if let Some(v) = ColorSpace::from_code(c) {
                if let Some(t) = v.text(syntax) {
                    assert_eq!(ColorSpace::from_text(syntax, &chars(&t)), Some(v));
                }
            }
            if let Some(v) = ColorTransfer::from_code(c) {
                if let Some(t) = v.text(syntax) {
                    assert_eq!(ColorTransfer::from_text(syntax, &chars(&t)), Some(v));
                }
            }
            if let Some(v) = ColorPrimaries::from_code(c) {
                if let Some(t) = v.text(syntax) {
                    assert_eq!(ColorPrimaries::from_text(syntax, &chars(&t)), Some(v));
                }
            }
        }
    }
}

#[test]
fn a_text_that_names_no_value_reads_as_none() {
    assert_eq!(ColorTransfer::from_text(Syntax::Plain, &chars("SMPTE2084")), None);
    assert_eq!(ColorTransfer::from_text(Syntax::Rav1e, &chars("smpte2084")), None);
    assert_eq!(ColorTransfer::from_text(Syntax::Plain, &chars("reserved")), None);
    assert_eq!(ColorTransfer::from_text(Syntax::Plain, &chars("")), None);
    assert_eq!(ColorTransfer::from_text(Syntax::Mkvmerge, &chars("16")), None);
    assert_eq!(ColorTransfer::from_text(Syntax::Mkvmerge, &chars("0:016")), None);
    assert_eq!(ColorTransfer::from_text(Syntax::Mkvmerge, &chars("0:3")), None);
    assert_eq!(ColorTransfer::from_text(Syntax::Mkvmerge, &chars("1:16")), None);
    assert_eq!(ColorPrimaries::from_text(Syntax::X265, &chars("ebu3213")), None);
    assert_eq!(
        ColorPrimaries::from_text(Syntax::Plain, &chars("ebu3213")),
        Some(ColorPrimaries::Ebu3213)
    );
    assert_eq!(ColorSpace::from_text(Syntax::Plain, &chars("bt2020")), None);
}

#[test]
fn luminance_is_written_without_trailing_zeros() {
    let write = |n: u64, s: Syntax| Value::Luminance(Luminance { ten_thousandths: n }).text(s);
    assert_eq!(write(10_000_000, Syntax::Mkvmerge).unwrap(), "0:1000");
    assert_eq!(write(1, Syntax::Mkvmerge).unwrap(), "0:0.0001");
    assert_eq!(write(50, Syntax::Mkvmerge).unwrap(), "0:0.005");
    assert_eq!(write(500, Syntax::Mkvmerge).unwrap(), "0:0.05");
    assert_eq!(write(5000, Syntax::Mkvmerge).unwrap(), "0:0.5");
    assert_eq!(write(12_345, Syntax::Mkvmerge).unwrap(), "0:1.2345");
    assert_eq!(write(10_100, Syntax::Mkvmerge).unwrap(), "0:1.01");
    assert_eq!(write(0, Syntax::Mkvmerge).unwrap(), "0:0");
    assert_eq!(write(u64::MAX, Syntax::Mkvmerge).unwrap(), "0:1844674407370955.1615");
    assert_eq!(write(10_000_000, Syntax::Plain).unwrap(), "1000 cd/m2");
    assert_eq!(write(50, Syntax::Plain).unwrap(), "0.005 cd/m2");
    assert_eq!(write(50, Syntax::X265), None);
    assert_eq!(write(50, Syntax::Rav1e), None);
}

#[test]
fn light_levels_are_written_alone_or_in_pairs() {
    assert_eq!(Value::Light(1000).text(Syntax::Mkvmerge).unwrap(), "0:1000");
    assert_eq!(Value::Light(0).text(Syntax::Mkvmerge).unwrap(), "0:0");
    assert_eq!(Value::Light(400).text(Syntax::Plain).unwrap(), "400 cd/m2");
    assert_eq!(Value::Light(400).text(Syntax::X265), None);
    assert_eq!(Value::Light(400).text(Syntax::Rav1e), None);
    assert_eq!(light_pair_text(1000, 400), "1000,400");
    assert_eq!(light_pair_text(0, u64::MAX), "0,18446744073709551615");
}

#[test]
fn the_table_names_each_field_in_each_syntax() {
    assert_eq!(flag_name(Syntax::Mkvmerge, Field::ColorSpace), Some("--colour-matrix-coefficients"));
    assert_eq!(
        flag_name(Syntax::Mkvmerge, Field::ColorTransfer),
        Some("--colour-transfer-characteristics")
    );
    assert_eq!(flag_name(Syntax::Mkvmerge, Field::ColorPrimaries), Some("--colour-primaries"));
    assert_eq!(flag_name(Syntax::Mkvmerge, Field::MinLuminance), Some("--min-luminance"));
    assert_eq!(flag_name(Syntax::Mkvmerge, Field::MaxLuminance), Some("--max-luminance"));
    assert_eq!(flag_name(Syntax::Mkvmerge, Field::MaxContentLight), Some("--max-content-light"));
    assert_eq!(flag_name(Syntax::Mkvmerge, Field::MaxFrameAverageLight), Some("--max-frame-light"));
    assert_eq!(flag_name(Syntax::X265, Field::ColorSpace), Some("--colormatrix"));
    assert_eq!(flag_name(Syntax::X265, Field::ColorTransfer), Some("--transfer"));
    assert_eq!(flag_name(Syntax::X265, Field::ColorPrimaries), Some("--colorprim"));
    assert_eq!(flag_name(Syntax::X265, Field::MinLuminance), None);
    assert_eq!(flag_name(Syntax::X265, Field::MaxLuminance), None);
    assert_eq!(flag_name(Syntax::X265, Field::MaxContentLight), Some("--max-cll"));
    assert_eq!(flag_name(Syntax::X265, Field::MaxFrameAverageLight), Some("--max-cll"));
    assert_eq!(flag_name(Syntax::Rav1e, Field::ColorSpace), Some("--matrix"));
    assert_eq!(flag_name(Syntax::Rav1e, Field::ColorTransfer), Some("--transfer"));
    assert_eq!(flag_name(Syntax::Rav1e, Field::ColorPrimaries), Some("--primaries"));
    assert_eq!(flag_name(Syntax::Rav1e, Field::MinLuminance), None);
    assert_eq!(flag_name(Syntax::Rav1e, Field::MaxContentLight), Some("--content-light"));
    assert_eq!(flag_name(Syntax::Rav1e, Field::MaxFrameAverageLight), Some("--content-light"));
    assert_eq!(flag_name(Syntax::Plain, Field::ColorSpace), Some("Color space"));
    assert_eq!(label_text(Field::MaxFrameAverageLight), "Max frame-average light level");
    assert_eq!(label_text(Field::MinLuminance), "Mastering display min luminance");
}

#[test]
fn numbers_written_for_a_tool_read_back() {
    let lum = |n: u64| Some(Value::Luminance(Luminance { ten_thousandths: n }));
    let m = Syntax::Mkvmerge;
    assert_eq!(read_value(m, Field::MaxLuminance, &chars("0:1000")), lum(10_000_000));
    assert_eq!(read_value(m, Field::MinLuminance, &chars("0:0.005")), lum(50));
    assert_eq!(read_value(m, Field::MinLuminance, &chars("0.005")), None);
    assert_eq!(read_value(m, Field::MinLuminance, &chars("0:")), None);
    assert_eq!(read_value(m, Field::MaxContentLight, &chars("0:1000")), Some(Value::Light(1000)));
    assert_eq!(read_value(m, Field::MaxContentLight, &chars("0:1.5")), None);
    assert_eq!(read_value(m, Field::ColorTransfer, &chars("0:16")), Some(Value::Transfer(ColorTransfer::Pq)));
    for s in [Syntax::X265, Syntax::Rav1e] {
        assert_eq!(read_value(s, Field::MaxContentLight, &chars("1000,400")), Some(Value::Light(1000)));
        assert_eq!(
            read_value(s, Field::MaxFrameAverageLight, &chars("1000,400")),
            Some(Value::Light(400))
        );
        assert_eq!(read_value(s, Field::MaxContentLight, &chars("1000")), None);
        assert_eq!(read_value(s, Field::MaxContentLight, &chars("1000,")), None);
        assert_eq!(read_value(s, Field::MaxContentLight, &chars(",400")), None);
        assert_eq!(read_value(s, Field::MaxLuminance, &chars("1000")), None);
    }
    assert_eq!(read_value(Syntax::Plain, Field::MaxContentLight, &chars("1000 cd/m2")), None);
    assert_eq!(read_value(Syntax::Plain, Field::MaxLuminance, &chars("1000 cd/m2")), None);
    assert_eq!(
        read_value(Syntax::Plain, Field::ColorSpace, &chars("bt2020nc")),
        Some(Value::Space(ColorSpace::Bt2020Ncl))
    );
    assert_eq!(
        read_value(Syntax::Rav1e, Field::ColorPrimaries, &chars("BT2020")),
        Some(Value::Primaries(ColorPrimaries::Bt2020))
    );
}

#[test]
fn written_numbers_round_trip_for_many_values() {
    let samples = [0u64, 1, 9, 10, 50, 99, 100, 500, 999, 1000, 5000, 9999, 10_000, 10_001, 12_340,
        10_000_000, 40_000_000, u64::MAX - 1, u64::MAX];
    for n in samples {
        let l = Value::Luminance(Luminance { ten_thousandths: n });
        let t = l.text(Syntax::Mkvmerge).unwrap();
        assert_eq!(read_value(Syntax::Mkvmerge, Field::MinLuminance, &chars(&t)), Some(l));
        let v = Value::Light(n);
        let t = v.text(Syntax::Mkvmerge).unwrap();
        assert_eq!(read_value(Syntax::Mkvmerge, Field::MaxFrameAverageLight, &chars(&t)), Some(v));
        let pair = light_pair_text(n, 400);
        assert_eq!(read_value(Syntax::X265, Field::MaxContentLight, &chars(&pair)), Some(v));
        let pair = light_pair_text(400, n);
        assert_eq!(read_value(Syntax::Rav1e, Field::MaxFrameAverageLight, &chars(&pair)), Some(v));
    }
}
